//! Utilization-to-icon classification.
//!
//! The input is an instantaneous CPU utilization sample, an integer
//! percentage. The domain is partitioned into [`STATE_COUNT`] contiguous
//! bands, inclusive at their lower boundary: `[0,17)`, `[17,34)`, `[34,51)`,
//! `[51,68)`, `[68,85)`, and a last band that is closed above, so readings at
//! or beyond 85 — including out-of-range values above 100 — clamp to the
//! highest state.

use vstd::prelude::*;

verus! {

/// Number of icon states: valid states are `0 ..= STATE_COUNT - 1`.
pub const STATE_COUNT: u8 = 6;

/// The icon state for a given utilization sample: the index of the band the
/// sample falls in.
pub open spec fn spec_classify(load: u8) -> u8 {
    if load <= 16 {
        0
    } else if load <= 33 {
        1
    } else if load <= 50 {
        2
    } else if load <= 67 {
        3
    } else if load <= 84 {
        4
    } else {
        5
    }
}

/// Lower boundary of band `i`; bands are inclusive at their lower boundary.
pub open spec fn band_start(i: int) -> int {
    if i <= 0 {
        0
    } else if i == 1 {
        17
    } else if i == 2 {
        34
    } else if i == 3 {
        51
    } else if i == 4 {
        68
    } else {
        85
    }
}

/// Whether sample `load` lies in band `i`: at or above the band's lower
/// boundary and, except for the last band, below the next band's lower
/// boundary. The last band absorbs every sample at or above its boundary.
pub open spec fn in_band(i: int, load: u8) -> bool {
    &&& 0 <= i < STATE_COUNT
    &&& band_start(i) <= load
    &&& (i == STATE_COUNT - 1 || load < band_start(i + 1))
}

/// Map a utilization sample (integer percentage of overall CPU load; values
/// above 100 clamp to the highest state) to the index of the icon to display.
pub fn get_icon(load: u8) -> (state: u8)
    ensures
        state == spec_classify(load),
        state < STATE_COUNT,
{
    if load <= 16 {
        0
    } else if load <= 33 {
        1
    } else if load <= 50 {
        2
    } else if load <= 67 {
        3
    } else if load <= 84 {
        4
    } else {
        5
    }
}

/// Classification is total over the sample domain and always lands on a
/// valid icon state.
pub proof fn lemma_classify_in_range(load: u8)
    ensures
        spec_classify(load) < STATE_COUNT,
{
}

/// Classification is monotonic: a higher utilization sample never maps to a
/// lower icon state.
pub proof fn lemma_classify_monotonic(a: u8, b: u8)
    requires
        a <= b,
    ensures
        spec_classify(a) <= spec_classify(b),
{
}

/// The bands partition the domain: every sample lies in exactly one band,
/// namely the one whose index classification returns. No gaps, no overlaps.
pub proof fn lemma_band_partition(i: int, load: u8)
    ensures
        in_band(i, load) <==> i == spec_classify(load),
{
}

} // verus!
