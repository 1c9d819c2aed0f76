//! The update controller: the stateful half of the tray logic.
//!
//! The controller owns the last-displayed icon state and the identifier of
//! the registered "Quit" menu entry. The host loop drives it: on every tick
//! it hands the controller a fresh sample (or `None` when sampling failed)
//! and receives back the display action this tick requires; after the tray
//! icon was actually set, the host reports the success so the controller can
//! record the new state. A display failure is simply not reported, which
//! leaves the recorded state unchanged and makes the next changed tick retry
//! the same transition.

use vstd::prelude::*;

use crate::classify::{get_icon, spec_classify, STATE_COUNT};

verus! {

/// The display action a tick asks for: `Some(state)` means the host must set
/// the tray icon to `state`; `None` means nothing changed and no redraw is
/// owed.
pub open spec fn spec_decision(last: Option<u8>, sample: Option<u8>) -> Option<u8> {
    match sample {
        None => None,
        Some(s) => if last == Some(spec_classify(s)) {
            None
        } else {
            Some(spec_classify(s))
        },
    }
}

/// Polls-to-display state machine: remembers what the tray currently shows
/// and which menu identifier means "quit".
pub struct UpdateController {
    /// The icon state the display was last successfully set to. `None` is
    /// the startup sentinel: no state has been displayed yet, so the first
    /// classified sample always triggers a display change.
    pub last_state: Option<u8>,
    /// Identifier of the registered "Quit" menu entry, compared byte for
    /// byte against incoming menu activation events.
    pub quit_id: Vec<u8>,
}

impl UpdateController {
    /// The recorded state, when present, is a valid icon state.
    pub open spec fn wf(self) -> bool {
        self.last_state matches Some(s) ==> s < STATE_COUNT
    }

    /// A fresh controller: no state displayed yet, quit entry registered
    /// under `quit_id`.
    pub fn new(quit_id: Vec<u8>) -> (controller: Self)
        ensures
            controller.last_state is None,
            controller.quit_id == quit_id,
            controller.wf(),
    {
        UpdateController { last_state: None, quit_id }
    }

    /// One polling tick: classify the fresh sample and decide whether the
    /// display must change. Returns `Some(state)` exactly when a redraw is
    /// owed — on the first successful sample (the sentinel matches no
    /// state), and afterwards whenever the sample crossed into a different
    /// band. A failed sample (`None`) skips the cycle.
    pub fn update(&self, sample: Option<u8>) -> (action: Option<u8>)
        ensures
            action == spec_decision(self.last_state, sample),
    {
        match sample {
            None => None,
            Some(s) => {
                let state = get_icon(s);
                let unchanged = match self.last_state {
                    Some(prev) => prev == state,
                    None => false,
                };
                if unchanged {
                    None
                } else {
                    Some(state)
                }
            },
        }
    }

    /// Record that the display was successfully set to `state`. Called by
    /// the host only after the tray accepted the change; on failure the host
    /// calls nothing, the recorded state stays, and the transition is
    /// retried on the next changed tick.
    pub fn note_displayed(&mut self, state: u8)
        requires
            state < STATE_COUNT,
        ensures
            final(self).last_state == Some(state),
            final(self).quit_id == old(self).quit_id,
            final(self).wf(),
    {
        self.last_state = Some(state);
    }

    /// Decide whether a menu activation event asks the process to quit: true
    /// exactly when the event's identifier equals the registered quit
    /// identifier. The process termination itself is the host's side effect.
    pub fn handle_quit_signal(&self, signal: &Vec<u8>) -> (quit: bool)
        ensures
            quit == (signal@ == self.quit_id@),
    {
        ids_match(signal, &self.quit_id)
    }
}

/// Byte-for-byte equality of two identifiers.
fn ids_match(a: &Vec<u8>, b: &Vec<u8>) -> (r: bool)
    ensures
        r == (a@ == b@),
{
    if a.len() != b.len() {
        assert(a@ != b@) by {
            assert(a@.len() != b@.len());
        }
        return false;
    }
    let n = a.len();
    let mut i: usize = 0;
    while i < n
        invariant
            n == a.len() == b.len(),
            i <= n,
            forall|j: int| 0 <= j < i ==> a@[j] == b@[j],
        decreases n - i,
    {
        if a[i] != b[i] {
            return false;
        }
        i += 1;
    }
    assert(a@ =~= b@);
    true
}

} // verus!
