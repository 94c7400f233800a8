//! Hardware lifecycle of the polling worker.
//!
//! The worker first brings the reader up, retrying a bounded number of
//! times with linear backoff; exhausting the budget is a fatal service
//! error. Once the reader is up, each poll outcome is classified: a
//! detection resets the fault streak and is followed by a debounce
//! pause, a benign outcome (no card in range) is ignored, and a real
//! fault lengthens the streak until a threshold tears the reader down
//! for reinitialization instead of spinning on a wedged device.

use vstd::prelude::*;

verus! {

/// Number of backoff retries after a failed first initialization.
pub const INIT_RETRY_LIMIT: u8 = 3;

/// Step of the linear backoff between initialization attempts, in
/// milliseconds: the n-th retry waits n times this long.
pub const INIT_BACKOFF_STEP_MS: u64 = 1000;

/// Consecutive real faults after which the reader is torn down and
/// reinitialized from scratch.
pub const FAULT_TEARDOWN_THRESHOLD: u32 = 15;

/// Pause after a successful read, so a tag still in range is not
/// reported again at once.
pub const DEBOUNCE_MS: u64 = 200;

/// What the worker does after an initialization attempt.
#[derive(Clone, Copy, Debug, PartialEq, Eq, Structural)]
pub enum InitDecision {
    /// The reader is up; start polling.
    Proceed,
    /// Wait this many milliseconds, then try again.
    RetryAfter(u64),
    /// The retry budget is exhausted; the service must report a fatal
    /// error and stop.
    Fatal,
}

/// Classification of one poll outcome, after benign conditions have
/// been told apart from real faults.
#[derive(Clone, Copy, Debug, PartialEq, Eq, Structural)]
pub enum PollClass {
    /// A tag was read.
    TagFound,
    /// No card in range or a poll timeout; normal, never counted.
    Benign,
    /// A real fault of the reader.
    Fault,
}

/// What the worker does after a classified poll outcome.
#[derive(Clone, Copy, Debug, PartialEq, Eq, Structural)]
pub enum PollDecision {
    /// Publish the detection, then pause this many milliseconds.
    EmitAndDebounce(u64),
    /// Do nothing; keep polling.
    Ignore,
    /// The fault was recorded; keep polling.
    CountFault,
    /// Too many consecutive faults: tear the reader down and
    /// reinitialize it from scratch.
    Teardown,
}

/// Bookkeeping of the worker's hardware lifecycle.
pub struct WorkerMachine {
    /// Failed initialization attempts since the last teardown.
    pub init_failures: u8,
    /// Consecutive real faults since the last success or teardown.
    pub consecutive_faults: u32,
    /// Whether the reader is currently initialized.
    pub hw_ready: bool,
}

impl WorkerMachine {
    /// Well-formedness: the counters stay within their budgets.
    pub open spec fn inv(&self) -> bool {
        &&& self.init_failures <= INIT_RETRY_LIMIT + 1
        &&& self.consecutive_faults < FAULT_TEARDOWN_THRESHOLD
    }

    /// A fresh worker: reader down, no failures recorded.
    pub fn new() -> (r: WorkerMachine)
        ensures
            r.inv(),
            r.init_failures == 0,
            r.consecutive_faults == 0,
            !r.hw_ready,
    {
        WorkerMachine { init_failures: 0, consecutive_faults: 0, hw_ready: false }
    }

    /// Delay before the n-th initialization retry (1-based): linear
    /// backoff of one step per failure so far.
    pub fn init_backoff_ms(retry: u8) -> (r: u64)
        requires
            1 <= retry <= INIT_RETRY_LIMIT,
        ensures
            r == retry * INIT_BACKOFF_STEP_MS,
    {
        (retry as u64) * INIT_BACKOFF_STEP_MS
    }

    /// Fold in the outcome of one initialization attempt. Success
    /// brings the reader up and clears the counters; each failure
    /// lengthens the backoff until the budget is exhausted, which is
    /// fatal.
    pub fn on_init_result(&mut self, ok: bool) -> (d: InitDecision)
        requires
            old(self).inv(),
            !old(self).hw_ready,
            old(self).init_failures <= INIT_RETRY_LIMIT,
        ensures
            final(self).inv(),
            ok ==> *final(self) == (WorkerMachine {
                init_failures: 0,
                consecutive_faults: 0,
                hw_ready: true,
            }) && d == InitDecision::Proceed,
            !ok ==> *final(self) == (WorkerMachine {
                init_failures: (old(self).init_failures + 1) as u8,
                ..*old(self)
            }),
            !ok && old(self).init_failures < INIT_RETRY_LIMIT ==> d == InitDecision::RetryAfter(
                (((old(self).init_failures + 1) as u64) * INIT_BACKOFF_STEP_MS) as u64,
            ),
            !ok && old(self).init_failures == INIT_RETRY_LIMIT ==> d == InitDecision::Fatal,
    {
        if ok {
            self.init_failures = 0;
            self.consecutive_faults = 0;
            self.hw_ready = true;
            InitDecision::Proceed
        } else {
            self.init_failures = self.init_failures + 1;
            if self.init_failures <= INIT_RETRY_LIMIT {
                InitDecision::RetryAfter(Self::init_backoff_ms(self.init_failures))
            } else {
                InitDecision::Fatal
            }
        }
    }

    /// Fold in one classified poll outcome. A detection resets the
    /// fault streak and asks for a debounce pause; a benign outcome
    /// changes nothing; a fault lengthens the streak, and at the
    /// threshold the reader is torn down for reinitialization.
    pub fn on_poll_outcome(&mut self, outcome: PollClass) -> (d: PollDecision)
        requires
            old(self).inv(),
            old(self).hw_ready,
        ensures
            final(self).inv(),
            match outcome {
                PollClass::TagFound => *final(self) == (WorkerMachine {
                    consecutive_faults: 0,
                    ..*old(self)
                }) && d == PollDecision::EmitAndDebounce(DEBOUNCE_MS),
                PollClass::Benign => *final(self) == *old(self) && d == PollDecision::Ignore,
                PollClass::Fault => {
                    if old(self).consecutive_faults + 1 >= FAULT_TEARDOWN_THRESHOLD {
                        *final(self) == (WorkerMachine {
                            init_failures: 0,
                            consecutive_faults: 0,
                            hw_ready: false,
                        }) && d == PollDecision::Teardown
                    } else {
                        *final(self) == (WorkerMachine {
                            consecutive_faults: (old(self).consecutive_faults + 1) as u32,
                            ..*old(self)
                        }) && d == PollDecision::CountFault
                    }
                },
            },
    {
        match outcome {
            PollClass::TagFound => {
                self.consecutive_faults = 0;
                PollDecision::EmitAndDebounce(DEBOUNCE_MS)
            },
            PollClass::Benign => PollDecision::Ignore,
            PollClass::Fault => {
                if self.consecutive_faults + 1 >= FAULT_TEARDOWN_THRESHOLD {
                    self.init_failures = 0;
                    self.consecutive_faults = 0;
                    self.hw_ready = false;
                    PollDecision::Teardown
                } else {
                    self.consecutive_faults = self.consecutive_faults + 1;
                    PollDecision::CountFault
                }
            },
        }
    }
}

} // verus!
