//! Drain worker for the offline cache.
//!
//! The worker runs on a fixed period and opportunistically after any
//! successful live submission. A single-flight guard makes a second
//! trigger during an active drain a no-op. A drain is skipped entirely
//! when the network is unreachable or no credential is available. The
//! records are worked oldest-first; for each one the attempt counter is
//! persisted *before* the send, so a crash mid-send can never produce
//! an uncounted retry. A delivered record is removed; an authentication
//! failure or a network error aborts the whole pass, since the
//! remaining records would fail the same way; any other server failure
//! leaves the record for the next cycle. Records at the attempt cap are
//! skipped, not deleted.

use crate::cache::{
    lemma_key_index_of_match, scan_key_matches, OfflineScanCache, PendingScan, MAX_SEND_ATTEMPTS,
};
use vstd::prelude::*;

verus! {

/// Period of the background drain, in seconds.
pub const DRAIN_PERIOD_SECS: u64 = 300;

/// Pause between two sends of one drain pass, to throttle the request
/// rate, in milliseconds.
pub const INTER_RECORD_DELAY_MS: u64 = 500;

/// How the remote service answered one cached-record send.
#[derive(Clone, Copy, Debug, PartialEq, Eq, Structural)]
pub enum SendOutcome {
    /// The record reached the service.
    Delivered,
    /// The credential was rejected; the rest of the pass is hopeless.
    AuthExpired,
    /// The service refused the record with this status; the record
    /// waits for the next cycle.
    ServerError(u16),
    /// The request did not reach the service; the pass stops.
    NetworkError,
}

/// The single-flight state of the drain worker.
pub struct CacheSyncWorker {
    draining: bool,
}

impl CacheSyncWorker {
    /// Whether a drain pass is active.
    pub closed spec fn draining(&self) -> bool {
        self.draining
    }

    /// A worker with no drain active.
    pub fn new() -> (r: CacheSyncWorker)
        ensures
            !r.draining(),
    {
        CacheSyncWorker { draining: false }
    }

    /// Try to become the one active drain pass. Returns false, and
    /// changes nothing, while another pass is active.
    pub fn try_begin_drain(&mut self) -> (acquired: bool)
        ensures
            acquired == !old(self).draining(),
            final(self).draining(),
    {
        if self.draining {
            false
        } else {
            self.draining = true;
            true
        }
    }

    /// End the active drain pass.
    pub fn finish_drain(&mut self)
        ensures
            !final(self).draining(),
    {
        self.draining = false;
    }
}

/// Whether one send's answer ends the whole drain pass: a rejected
/// credential or an unreachable network would fail every remaining
/// record the same way.
pub fn drain_aborts(outcome: &SendOutcome) -> (r: bool)
    ensures
        r == (outcome is AuthExpired || outcome is NetworkError),
{
    match outcome {
        SendOutcome::AuthExpired => true,
        SendOutcome::NetworkError => true,
        _ => false,
    }
}

/// Whether a record may still be retried.
pub open spec fn eligible(r: PendingScan) -> bool {
    r.attempts < MAX_SEND_ATTEMPTS
}

/// The record with one more attempt counted.
pub open spec fn bump(r: PendingScan) -> PendingScan {
    PendingScan { attempts: (r.attempts + 1) as u8, ..r }
}

/// A drain pass never tries a negative number of sends.
pub proof fn lemma_eligible_count_nonneg(s: Seq<PendingScan>)
    ensures
        eligible_count(s) >= 0,
    decreases s.len(),
{
    if s.len() > 0 {
        lemma_eligible_count_nonneg(s.skip(1));
    }
}

/// Number of records a drain pass would try to send.
pub open spec fn eligible_count(s: Seq<PendingScan>) -> int
    decreases s.len(),
{
    if s.len() == 0 {
        0
    } else {
        (if eligible(s[0]) {
            1int
        } else {
            0int
        }) + eligible_count(s.skip(1))
    }
}

/// The cache contents after one drain pass over `pending` (oldest
/// first), where `outcomes[k]` is the answer to the k-th send actually
/// performed: capped records are skipped untouched; a delivered record
/// disappears; any other answer leaves the record with its attempt
/// counted, and an authentication or network failure also leaves every
/// later record untouched.
pub open spec fn drain_model(pending: Seq<PendingScan>, outcomes: Seq<SendOutcome>) -> Seq<
    PendingScan,
>
    decreases pending.len(),
{
    if pending.len() == 0 {
        Seq::empty()
    } else {
        let first = pending[0];
        if !eligible(first) {
            seq![first] + drain_model(pending.skip(1), outcomes)
        } else if outcomes.len() == 0 {
            pending
        } else {
            match outcomes[0] {
                SendOutcome::Delivered => drain_model(pending.skip(1), outcomes.skip(1)),
                SendOutcome::ServerError(_) => seq![bump(first)] + drain_model(
                    pending.skip(1),
                    outcomes.skip(1),
                ),
                SendOutcome::AuthExpired => seq![bump(first)] + pending.skip(1),
                SendOutcome::NetworkError => seq![bump(first)] + pending.skip(1),
            }
        }
    }
}

/// One drain pass. `network_available` and `has_token` are the
/// preconditions probed by the runtime; `outcomes` answers the sends in
/// order, one entry per record the pass actually tries. Returns whether
/// a pass ran: a trigger during an active pass, or without network or
/// credential, changes nothing.
pub fn process_cached_scans(
    cache: &mut OfflineScanCache,
    worker: &mut CacheSyncWorker,
    network_available: bool,
    has_token: bool,
    outcomes: &Vec<SendOutcome>,
) -> (ran: bool)
    requires
        old(cache).wf(),
        outcomes@.len() >= eligible_count(old(cache)@),
    ensures
        final(cache).wf(),
        final(worker).draining() == old(worker).draining(),
        old(worker).draining() ==> !ran && final(cache)@ == old(cache)@,
        !old(worker).draining() && !(network_available && has_token) ==> !ran && final(cache)@
            == old(cache)@,
        !old(worker).draining() && network_available && has_token ==> ran && final(cache)@
            == drain_model(old(cache)@, outcomes@),
{
    if !worker.try_begin_drain() {
        return false;
    }
    if !network_available || !has_token {
        worker.finish_drain();
        return false;
    }
    let snapshot = cache.get_cached_scans();
    let ghost snap0 = snapshot@;
    let n = snapshot.len();
    let n_outcomes = outcomes.len();
    let mut i: usize = 0;
    let mut c: usize = 0;
    let mut aborted = false;
    let ghost mut done: Seq<PendingScan> = Seq::empty();
    proof {
        assert(snap0.skip(0) =~= snap0);
        assert(outcomes@.skip(0) =~= outcomes@);
        assert(cache@ =~= done + snap0.skip(0));
        assert(drain_model(snap0, outcomes@) =~= done + drain_model(
            snap0.skip(0),
            outcomes@.skip(0),
        ));
    }
    while i < n && !aborted
        invariant
            cache.wf(),
            n == snap0.len(),
            snapshot@ == snap0,
            i <= n,
            n_outcomes == outcomes@.len(),
            c <= n_outcomes,
            !aborted ==> {
                &&& cache@ == done + snap0.skip(i as int)
                &&& drain_model(snap0, outcomes@) == done + drain_model(
                    snap0.skip(i as int),
                    outcomes@.skip(c as int),
                )
                &&& outcomes@.len() - c >= eligible_count(snap0.skip(i as int))
            },
            aborted ==> cache@ == drain_model(snap0, outcomes@),
        decreases n - i,
    {
        let ghost rest = snap0.skip(i as int);
        let ghost orest = outcomes@.skip(c as int);
        let scan = &snapshot[i];
        proof {
            assert(rest[0] == snap0[i as int]);
        }
        if scan.attempts >= MAX_SEND_ATTEMPTS {
            // At the cap: retained, never retried.
            proof {
                assert(!eligible(rest[0]));
                assert(drain_model(rest, orest) == seq![rest[0]] + drain_model(
                    rest.skip(1),
                    orest,
                ));
                assert(rest.skip(1) =~= snap0.skip(i + 1));
                assert(done + rest =~= (done + seq![rest[0]]) + rest.skip(1));
                assert(done + drain_model(rest, orest) =~= (done + seq![rest[0]]) + drain_model(
                    rest.skip(1),
                    orest,
                ));
                done = done + seq![rest[0]];
            }
            i = i + 1;
        } else {
            proof {
                assert(eligible(rest[0]));
                lemma_eligible_count_nonneg(rest.skip(1));
                assert(eligible_count(rest) == 1 + eligible_count(rest.skip(1)));
            }
            let ghost pre = cache@;
            proof {
                assert(pre[done.len() as int] == rest[0]);
                lemma_key_index_of_match(pre, done.len() as int);
            }
            // Count the attempt before the send, so a crash mid-send
            // cannot produce an uncounted retry.
            let marked = cache.mark_attempt(&scan.tag_id, scan.created_at);
            proof {
                assert(marked);
                assert(cache@ == pre.update(done.len() as int, bump(rest[0])));
                assert(cache@ =~= done + seq![bump(rest[0])] + snap0.skip(i + 1));
            }
            let outcome = outcomes[c];
            c = c + 1;
            match outcome {
                SendOutcome::Delivered => {
                    let ghost mid = cache@;
                    proof {
                        assert(mid[done.len() as int] == bump(rest[0]));
                        lemma_key_index_of_match(mid, done.len() as int);
                        assert(scan_key_matches(bump(rest[0]), scan.tag_id@, scan.created_at as int));
                    }
                    let removed = cache.remove_cached_scan(scan);
                    proof {
                        assert(removed);
                        assert(cache@ =~= done + snap0.skip(i + 1));
                        assert(drain_model(rest, orest) == drain_model(
                            rest.skip(1),
                            orest.skip(1),
                        ));
                        assert(rest.skip(1) =~= snap0.skip(i + 1));
                        assert(orest.skip(1) =~= outcomes@.skip(c as int));
                    }
                },
                SendOutcome::ServerError(_) => {
                    proof {
                        assert(drain_model(rest, orest) == seq![bump(rest[0])] + drain_model(
                            rest.skip(1),
                            orest.skip(1),
                        ));
                        assert(rest.skip(1) =~= snap0.skip(i + 1));
                        assert(orest.skip(1) =~= outcomes@.skip(c as int));
                        assert(done + drain_model(rest, orest) =~= (done + seq![bump(rest[0])])
                            + drain_model(rest.skip(1), orest.skip(1)));
                        done = done + seq![bump(rest[0])];
                    }
                },
                SendOutcome::AuthExpired => {
                    aborted = true;
                    proof {
                        assert(drain_model(rest, orest) == seq![bump(rest[0])] + rest.skip(1));
                        assert(rest.skip(1) =~= snap0.skip(i + 1));
                        assert(cache@ =~= done + drain_model(rest, orest));
                    }
                },
                SendOutcome::NetworkError => {
                    aborted = true;
                    proof {
                        assert(drain_model(rest, orest) == seq![bump(rest[0])] + rest.skip(1));
                        assert(rest.skip(1) =~= snap0.skip(i + 1));
                        assert(cache@ =~= done + drain_model(rest, orest));
                    }
                },
            }
            i = i + 1;
        }
    }
    proof {
        if !aborted {
            assert(snap0.skip(n as int) =~= Seq::<PendingScan>::empty());
            assert(drain_model(snap0.skip(n as int), outcomes@.skip(c as int)) =~= Seq::<
                PendingScan,
            >::empty());
            assert(cache@ =~= done);
            assert(done + drain_model(snap0.skip(n as int), outcomes@.skip(c as int)) =~= done);
        }
    }
    worker.finish_drain();
    true
}

} // verus!
