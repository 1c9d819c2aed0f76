//! Verified core of a system-tray CPU monitor.
//!
//! The tray utility polls overall CPU utilization on a timer and shows one of
//! six icons, each standing for a band of the load range, with a "Quit" menu
//! entry. This crate holds the logic that decides what to display and when:
//!
//! * [`classify`] maps an integer load percentage to an icon state and proves
//!   that the six bands partition the whole input range;
//! * [`controller`] owns the last-displayed state, detects state changes, and
//!   matches menu events against the registered quit identifier;
//! * [`protocol`] models a whole run of the controller over a sequence of
//!   samples and proves the change-detection laws.
//!
//! Host-platform glue (event loop, tray-icon handle, CPU sampler) stays
//! outside: it feeds plain values in and performs the returned actions.

use vstd::prelude::*;

pub mod classify;
pub mod controller;
pub mod protocol;

verus! {

/// Interface implemented by each host-platform backend.
pub trait DoomGuy {
    /// Check the CPU state and update the DoomGuy appearance, if needed.
    fn update(&self);

    /// OS-specific event loop.
    fn run(&self);
}

} // verus!
