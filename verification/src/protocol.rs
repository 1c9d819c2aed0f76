//! A run of the update protocol over a whole sequence of samples.
//!
//! [`emitted`] gives the sequence of display changes a fresh-or-running
//! controller issues when it is ticked once per sample and every issued
//! change is accepted by the display. The lemmas here state the laws of the
//! protocol: every issued change is a genuine change, a repeated sample
//! issues nothing new, and a run issues exactly one change per band boundary
//! crossed — the emitted sequence is the classified sample sequence with
//! consecutive duplicates removed.

use vstd::prelude::*;

use crate::classify::spec_classify;
use crate::controller::spec_decision;

verus! {

/// The classified counterpart of a sample sequence.
pub open spec fn classified(samples: Seq<u8>) -> Seq<u8> {
    samples.map_values(|s: u8| spec_classify(s))
}

/// The display changes issued when a controller whose recorded state is
/// `last` is ticked once per sample of `samples`, in order, with every
/// issued change accepted and recorded.
pub open spec fn emitted(last: Option<u8>, samples: Seq<u8>) -> Seq<u8>
    decreases samples.len(),
{
    if samples.len() == 0 {
        Seq::empty()
    } else {
        let rest = emitted(Some(spec_classify(samples.first())), samples.drop_first());
        match spec_decision(last, Some(samples.first())) {
            Some(state) => seq![state] + rest,
            None => rest,
        }
    }
}

/// `states` with consecutive duplicates removed, where a leading element
/// equal to `prev` also counts as a duplicate.
pub open spec fn dedup_from(prev: Option<u8>, states: Seq<u8>) -> Seq<u8>
    decreases states.len(),
{
    if states.len() == 0 {
        Seq::empty()
    } else if prev == Some(states.first()) {
        dedup_from(prev, states.drop_first())
    } else {
        seq![states.first()] + dedup_from(Some(states.first()), states.drop_first())
    }
}

proof fn lemma_classified_drop_first(samples: Seq<u8>)
    requires
        samples.len() > 0,
    ensures
        classified(samples).first() == spec_classify(samples.first()),
        classified(samples).drop_first() == classified(samples.drop_first()),
{
    assert(classified(samples).drop_first() =~= classified(samples.drop_first()));
}

/// Change detection: ticked over any sample sequence, a controller issues
/// exactly one display change per distinct new band entered, in order, no
/// matter how many samples fall inside each band — the issued changes are
/// the classified samples with consecutive duplicates removed, where the
/// recorded state `last` also suppresses a matching leading sample. A fresh
/// controller has `last == None`, so its first classified sample is always
/// issued.
pub proof fn lemma_change_detection(last: Option<u8>, samples: Seq<u8>)
    ensures
        emitted(last, samples) == dedup_from(last, classified(samples)),
    decreases samples.len(),
{
    if samples.len() == 0 {
        assert(classified(samples) =~= Seq::<u8>::empty());
    } else {
        lemma_classified_drop_first(samples);
        lemma_change_detection(Some(spec_classify(samples.first())), samples.drop_first());
    }
}

/// Every issued display change is a genuine change: a run never issues the
/// same state twice in a row, and never re-issues the state the controller
/// already has on record.
pub proof fn lemma_no_redundant_changes(last: Option<u8>, samples: Seq<u8>)
    ensures
        ({
            let changes = emitted(last, samples);
            &&& changes.len() > 0 ==> last != Some(changes.first())
            &&& forall|i: int| 0 < i < changes.len() ==> #[trigger] changes[i] != changes[i - 1]
        }),
    decreases samples.len(),
{
    if samples.len() > 0 {
        let state = spec_classify(samples.first());
        let rest = emitted(Some(state), samples.drop_first());
        lemma_no_redundant_changes(Some(state), samples.drop_first());
        if last != Some(state) {
            let whole = emitted(last, samples);
            assert(whole == seq![state] + rest);
            assert forall|i: int| 0 < i < whole.len() implies #[trigger] whole[i] != whole[i - 1] by {
                if i == 1 {
                    assert(whole[0] == state);
                    assert(whole[1] == rest[0]);
                } else {
                    assert(whole[i] == rest[i - 1]);
                    assert(whole[i - 1] == rest[i - 2]);
                }
            }
        }
    }
}

/// Idempotence: seeing the same sample again issues nothing new — the
/// second tick of the pair is a no-op, so the pair issues exactly as many
/// display changes as the single sample does (one for a fresh controller).
pub proof fn lemma_update_idempotent(last: Option<u8>, sample: u8)
    ensures
        spec_decision(Some(spec_classify(sample)), Some(sample)) is None,
        emitted(last, seq![sample, sample]) == emitted(last, seq![sample]),
{
    let cls = spec_classify(sample);
    let pair = seq![sample, sample];
    let single = seq![sample];
    assert(pair.drop_first() =~= single);
    assert(single.drop_first() =~= Seq::<u8>::empty());
    assert(emitted(Some(cls), Seq::<u8>::empty()) =~= Seq::<u8>::empty());
    assert(emitted(Some(cls), single) =~= Seq::<u8>::empty());
    assert(emitted(last, pair) =~= emitted(last, single));
}

} // verus!
