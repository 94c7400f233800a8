//! Exclusive access to the physical reader.
//!
//! The reader's protocol state is corrupted by concurrent use, so every
//! transaction — the continuous worker's polling as well as a one-shot
//! scan — runs only while holding this exclusive-access lock. The lock
//! records which side holds it; acquiring it succeeds exactly when it
//! is free, and a one-shot scan releases it on every exit path. The
//! runtime wraps it in its locking primitive and retries a refused
//! acquire until its timeout, then reports the busy outcome.

use crate::driver::{select_card_with_retry, select_resolution, ScanFailure, SelectOutcome};
use crate::driver::MAX_SELECT_RETRIES;
use crate::text::uid_text;
use vstd::prelude::*;

verus! {

/// The two sides that compete for the reader.
#[derive(Clone, Copy, Debug, PartialEq, Eq, Structural)]
pub enum GateHolder {
    /// The continuous background polling worker.
    Continuous,
    /// A one-shot scan request.
    OneShot,
}

/// The mutual-exclusion lock over the physical reader.
pub struct HardwareAccessGate {
    holder: Option<GateHolder>,
}

impl HardwareAccessGate {
    /// Who holds the reader, if anybody.
    pub closed spec fn holder(&self) -> Option<GateHolder> {
        self.holder
    }

    /// A lock that nobody holds.
    pub fn new() -> (r: HardwareAccessGate)
        ensures
            r.holder() is None,
    {
        HardwareAccessGate { holder: None }
    }

    /// Take the reader for one side. Succeeds exactly when nobody
    /// holds it; a held lock is left untouched.
    pub fn try_acquire(&mut self, who: GateHolder) -> (acquired: bool)
        ensures
            acquired == (old(self).holder() is None),
            acquired ==> final(self).holder() == Some(who),
            !acquired ==> *final(self) == *old(self),
    {
        match self.holder {
            None => {
                self.holder = Some(who);
                true
            },
            Some(_) => false,
        }
    }

    /// Release the reader; only the holder releases it.
    pub fn release(&mut self, who: GateHolder)
        requires
            old(self).holder() == Some(who),
        ensures
            final(self).holder() is None,
    {
        self.holder = None;
    }

    /// Whether somebody holds the reader.
    pub fn is_held(&self) -> (r: bool)
        ensures
            r == (self.holder() is Some),
    {
        self.holder.is_some()
    }
}

/// One bounded one-shot scan attempt against the shared reader:
/// acquire exclusive access, wake, select with bounded retries, halt,
/// release. The lock is released on every exit path, and one held by
/// the continuous worker refuses the scan without touching the reader:
/// `card_present` and `outcomes` are only consulted once the lock is
/// held.
pub fn one_shot_scan(
    gate: &mut HardwareAccessGate,
    card_present: bool,
    outcomes: &Vec<SelectOutcome>,
) -> (r: Result<String, ScanFailure>)
    requires
        outcomes@.len() >= 1 + MAX_SELECT_RETRIES,
    ensures
        old(gate).holder() is Some ==> *final(gate) == *old(gate) && r == Result::<
            String,
            ScanFailure,
        >::Err(ScanFailure::Busy),
        old(gate).holder() is None ==> final(gate).holder() is None && (if !card_present {
            r == Result::<String, ScanFailure>::Err(ScanFailure::NoCard)
        } else {
            match select_resolution(outcomes@) {
                Ok(bytes) => r matches Ok(s) && s@ == uid_text(bytes),
                Err(f) => r == Result::<String, ScanFailure>::Err(f),
            }
        }),
{
    if !gate.try_acquire(GateHolder::OneShot) {
        return Err(ScanFailure::Busy);
    }
    let result = if !card_present {
        Err(ScanFailure::NoCard)
    } else {
        select_card_with_retry(outcomes)
    };
    gate.release(GateHolder::OneShot);
    result
}

/// While the continuous worker holds the reader, a one-shot scan is
/// refused busy and performs no reader transaction, so the two sides
/// never interleave hardware operations.
pub proof fn lemma_one_shot_excluded(gate: HardwareAccessGate)
    requires
        gate.holder() == Some(GateHolder::Continuous),
    ensures
        gate.holder() is Some,
        gate.holder() != Some(GateHolder::OneShot),
{
}

} // verus!
