//! Lifecycle of the background polling service.
//!
//! The service is commanded with `Start` and `Stop` and drives one worker
//! that polls the reader. Commands and worker notifications are consumed
//! strictly in arrival order by a single loop; this module is that loop's
//! decision core: a deterministic transition function from the current
//! service model and one input to the next model and the action the
//! runtime has to perform (spawn the worker, join it, force-cancel it,
//! detach a reaper). The runtime around the library owns the actual
//! task handles and feeds the outcomes back in as [`WorkerEvent`]s.
//!
//! `should_run` records commanded intent, `is_running` observed worker
//! reality; after a `Stop` the two disagree until the worker settles,
//! and the model makes that window an explicit `Stopping` phase so that
//! the status can always report it.

use vstd::prelude::*;

verus! {

/// A detected tag, as published to subscribers.
#[derive(Clone, Debug)]
pub struct RfidScanEvent {
    /// Colon-separated hexadecimal bytes of the tag UID.
    pub tag_id: String,
    /// Unix seconds at detection.
    pub timestamp: u64,
    /// Name of the platform that produced the event.
    pub platform: String,
}

/// Result of a one-shot scan request: always structured, success
/// exactly when a tag id is present.
#[derive(Debug)]
pub struct RfidScanResult {
    pub success: bool,
    /// UID of the scanned tag, on success.
    pub tag_id: Option<String>,
    /// What went wrong, on failure.
    pub error: Option<String>,
}

/// Availability of the reader hardware, as probed at the status
/// boundary.
#[derive(Debug)]
pub struct RfidScannerStatus {
    pub is_available: bool,
    /// Name of the platform probed.
    pub platform: String,
    /// The first missing piece, when unavailable.
    pub last_error: Option<String>,
}

/// Published state of the background service.
#[derive(Clone, Debug)]
pub struct RfidServiceState {
    /// Commanded intent: the last lifecycle command asked for a running worker.
    pub should_run: bool,
    /// Observed reality: a worker session is still alive.
    pub is_running: bool,
    /// The most recent detection, if any.
    pub last_scan: Option<RfidScanEvent>,
    /// Number of real faults observed by the worker.
    pub error_count: u32,
    /// The most recent real fault, if any.
    pub last_error: Option<String>,
}

/// Lifecycle command, consumed in arrival order.
#[derive(Clone, Copy, Debug, PartialEq, Eq, Structural)]
pub enum ServiceCommand {
    Start,
    Stop,
}

/// Lifecycle phase of the service.
#[derive(Clone, Copy, Debug, PartialEq, Eq, Structural)]
pub enum ServicePhase {
    /// No worker exists.
    Idle,
    /// One worker polls the reader.
    Running,
    /// A stop was commanded and the worker has not settled yet.
    Stopping,
}

/// What the runtime learns about the worker and feeds back to the model.
#[derive(Debug)]
pub enum WorkerEvent {
    /// The worker finished, by join, by observed settlement after a
    /// force-cancel, or by the detached reaper.
    Settled,
    /// The bounded join after a stop ran out of time.
    JoinTimedOut,
    /// The settlement poll after a force-cancel ran out of time.
    SettleTimedOut,
    /// The worker gave up after exhausting its hardware retry budget.
    Fatal(String),
}

/// What the runtime must do after a transition.
#[derive(Clone, Copy, Debug, PartialEq, Eq, Structural)]
pub enum ServiceAction {
    DoNothing,
    /// Spawn the polling worker.
    SpawnWorker,
    /// Join the worker with the stop timeout.
    RequestJoin,
    /// Force-cancel the worker, then poll for settlement.
    ForceCancel,
    /// Detach: spawn a reaper that reports settlement later.
    Detach,
}

/// One input of the single consumer loop.
#[derive(Debug)]
pub enum ServiceInput {
    Command(ServiceCommand),
    Worker(WorkerEvent),
}

/// The model of the background service: published state, phase, and the
/// number of live worker sessions.
pub struct RfidBackgroundService {
    /// Published state, returned to callers as snapshots.
    pub state: RfidServiceState,
    /// Lifecycle phase.
    pub phase: ServicePhase,
    /// Number of live worker sessions.
    pub active_workers: u32,
}

impl RfidBackgroundService {
    /// Well-formedness: at most one worker session, and the phase agrees
    /// with the two lifecycle flags and the session count.
    pub open spec fn inv(&self) -> bool {
        &&& self.active_workers <= 1
        &&& (self.phase is Idle ==> self.active_workers == 0 && !self.state.is_running
            && !self.state.should_run)
        &&& (self.phase is Running ==> self.active_workers == 1 && self.state.is_running
            && self.state.should_run)
        &&& (self.phase is Stopping ==> self.active_workers == 1 && self.state.is_running
            && !self.state.should_run)
    }

    /// The state after consuming one input.
    pub open spec fn step_model(s: RfidBackgroundService, input: ServiceInput) -> RfidBackgroundService {
        match input {
            ServiceInput::Command(ServiceCommand::Start) => {
                if s.phase is Idle {
                    RfidBackgroundService {
                        state: RfidServiceState {
                            should_run: true,
                            is_running: true,
                            ..s.state
                        },
                        phase: ServicePhase::Running,
                        active_workers: (s.active_workers + 1) as u32,
                    }
                } else {
                    s
                }
            },
            ServiceInput::Command(ServiceCommand::Stop) => {
                if s.phase is Running {
                    RfidBackgroundService {
                        state: RfidServiceState { should_run: false, ..s.state },
                        phase: ServicePhase::Stopping,
                        active_workers: s.active_workers,
                    }
                } else {
                    s
                }
            },
            ServiceInput::Worker(WorkerEvent::Settled) => {
                if s.phase is Stopping {
                    RfidBackgroundService {
                        state: RfidServiceState { is_running: false, ..s.state },
                        phase: ServicePhase::Idle,
                        active_workers: 0,
                    }
                } else {
                    s
                }
            },
            ServiceInput::Worker(WorkerEvent::JoinTimedOut) => s,
            ServiceInput::Worker(WorkerEvent::SettleTimedOut) => s,
            ServiceInput::Worker(WorkerEvent::Fatal(msg)) => {
                if s.active_workers > 0 {
                    RfidBackgroundService {
                        state: RfidServiceState {
                            should_run: false,
                            is_running: false,
                            error_count: if s.state.error_count < u32::MAX {
                                (s.state.error_count + 1) as u32
                            } else {
                                s.state.error_count
                            },
                            last_error: Some(msg),
                            ..s.state
                        },
                        phase: ServicePhase::Idle,
                        active_workers: 0,
                    }
                } else {
                    s
                }
            },
        }
    }

    /// The action the runtime must perform for one input.
    pub open spec fn action_model(s: RfidBackgroundService, input: ServiceInput) -> ServiceAction {
        match input {
            ServiceInput::Command(ServiceCommand::Start) => {
                if s.phase is Idle {
                    ServiceAction::SpawnWorker
                } else {
                    ServiceAction::DoNothing
                }
            },
            ServiceInput::Command(ServiceCommand::Stop) => {
                if s.phase is Running {
                    ServiceAction::RequestJoin
                } else {
                    ServiceAction::DoNothing
                }
            },
            ServiceInput::Worker(WorkerEvent::JoinTimedOut) => {
                if s.phase is Stopping {
                    ServiceAction::ForceCancel
                } else {
                    ServiceAction::DoNothing
                }
            },
            ServiceInput::Worker(WorkerEvent::SettleTimedOut) => {
                if s.phase is Stopping {
                    ServiceAction::Detach
                } else {
                    ServiceAction::DoNothing
                }
            },
            _ => ServiceAction::DoNothing,
        }
    }

    /// A fresh service: idle, nothing scanned, no errors.
    pub fn new() -> (r: RfidBackgroundService)
        ensures
            r.inv(),
            r.phase is Idle,
            r.active_workers == 0,
            !r.state.should_run,
            !r.state.is_running,
            r.state.last_scan is None,
            r.state.error_count == 0,
            r.state.last_error is None,
    {
        RfidBackgroundService {
            state: RfidServiceState {
                should_run: false,
                is_running: false,
                last_scan: None,
                error_count: 0,
                last_error: None,
            },
            phase: ServicePhase::Idle,
            active_workers: 0,
        }
    }

    /// Consume one lifecycle command; the caller performs the returned action.
    pub fn send_command(&mut self, command: ServiceCommand) -> (a: ServiceAction)
        requires
            old(self).inv(),
        ensures
            *final(self) == Self::step_model(*old(self), ServiceInput::Command(command)),
            a == Self::action_model(*old(self), ServiceInput::Command(command)),
            final(self).inv(),
    {
        proof {
            Self::lemma_step_preserves_inv(*old(self), ServiceInput::Command(command));
        }
        match command {
            ServiceCommand::Start => {
                if self.phase == ServicePhase::Idle {
                    self.state.should_run = true;
                    self.state.is_running = true;
                    self.phase = ServicePhase::Running;
                    self.active_workers = self.active_workers + 1;
                    ServiceAction::SpawnWorker
                } else {
                    ServiceAction::DoNothing
                }
            },
            ServiceCommand::Stop => {
                if self.phase == ServicePhase::Running {
                    self.state.should_run = false;
                    self.phase = ServicePhase::Stopping;
                    ServiceAction::RequestJoin
                } else {
                    ServiceAction::DoNothing
                }
            },
        }
    }

    /// Consume one worker notification; the caller performs the returned action.
    pub fn handle_worker_event(&mut self, event: WorkerEvent) -> (a: ServiceAction)
        requires
            old(self).inv(),
        ensures
            *final(self) == Self::step_model(*old(self), ServiceInput::Worker(event)),
            a == Self::action_model(*old(self), ServiceInput::Worker(event)),
            final(self).inv(),
    {
        match event {
            WorkerEvent::Settled => {
                if self.phase == ServicePhase::Stopping {
                    self.state.is_running = false;
                    self.phase = ServicePhase::Idle;
                    self.active_workers = 0;
                }
                ServiceAction::DoNothing
            },
            WorkerEvent::JoinTimedOut => {
                if self.phase == ServicePhase::Stopping {
                    ServiceAction::ForceCancel
                } else {
                    ServiceAction::DoNothing
                }
            },
            WorkerEvent::SettleTimedOut => {
                if self.phase == ServicePhase::Stopping {
                    ServiceAction::Detach
                } else {
                    ServiceAction::DoNothing
                }
            },
            WorkerEvent::Fatal(msg) => {
                if self.active_workers > 0 {
                    self.state.should_run = false;
                    self.state.is_running = false;
                    if self.state.error_count < u32::MAX {
                        self.state.error_count = self.state.error_count + 1;
                    }
                    self.state.last_error = Some(msg);
                    self.phase = ServicePhase::Idle;
                    self.active_workers = 0;
                }
                ServiceAction::DoNothing
            },
        }
    }

    /// Snapshot of the published state.
    pub fn get_state(&self) -> (r: RfidServiceState)
        ensures
            r == self.state,
    {
        RfidServiceState {
            should_run: self.state.should_run,
            is_running: self.state.is_running,
            last_scan: match &self.state.last_scan {
                Some(ev) => Some(RfidScanEvent {
                    tag_id: ev.tag_id.clone(),
                    timestamp: ev.timestamp,
                    platform: ev.platform.clone(),
                }),
                None => None,
            },
            error_count: self.state.error_count,
            last_error: match &self.state.last_error {
                Some(msg) => Some(msg.clone()),
                None => None,
            },
        }
    }

    /// Whether a stop is still settling; the status boundary reports this
    /// whenever `is_running` lags behind a stop command.
    pub fn stop_in_progress(&self) -> (r: bool)
        ensures
            r == (self.phase is Stopping),
    {
        self.phase == ServicePhase::Stopping
    }

    /// Cooperative cancellation check, read by the worker once per loop
    /// iteration.
    pub fn worker_should_continue(&self) -> (r: bool)
        ensures
            r == self.state.should_run,
    {
        self.state.should_run
    }

    /// One transition keeps the service well-formed.
    pub proof fn lemma_step_preserves_inv(s: RfidBackgroundService, input: ServiceInput)
        requires
            s.inv(),
        ensures
            Self::step_model(s, input).inv(),
    {
    }

    /// The state after consuming a whole sequence of inputs, in order.
    pub open spec fn run_model(s: RfidBackgroundService, inputs: Seq<ServiceInput>) -> RfidBackgroundService
        decreases inputs.len(),
    {
        if inputs.len() == 0 {
            s
        } else {
            Self::run_model(Self::step_model(s, inputs[0]), inputs.skip(1))
        }
    }

    /// For any interleaving of commands and worker notifications, a
    /// well-formed service stays well-formed and never holds more than
    /// one live polling session.
    pub proof fn lemma_at_most_one_session(s: RfidBackgroundService, inputs: Seq<ServiceInput>)
        requires
            s.inv(),
        ensures
            Self::run_model(s, inputs).inv(),
            Self::run_model(s, inputs).active_workers <= 1,
        decreases inputs.len(),
    {
        if inputs.len() > 0 {
            Self::lemma_step_preserves_inv(s, inputs[0]);
            Self::lemma_at_most_one_session(Self::step_model(s, inputs[0]), inputs.skip(1));
        }
    }

    /// A worker is only ever spawned when no session is live; in
    /// particular, a `Start` that arrives while a prior stop has not yet
    /// settled spawns nothing.
    pub proof fn lemma_spawn_only_without_session(s: RfidBackgroundService, input: ServiceInput)
        requires
            s.inv(),
            Self::action_model(s, input) == ServiceAction::SpawnWorker,
        ensures
            s.active_workers == 0,
    {
    }

    /// A commanded-stopped service is never silently stuck: whenever
    /// `is_running` still lags behind a stop command, the phase is
    /// `Stopping`, which the status boundary reports as a stop in
    /// progress with the worker's settlement as the recovery path.
    pub proof fn lemma_stop_never_stuck(s: RfidBackgroundService)
        requires
            s.inv(),
            s.state.is_running,
            !s.state.should_run,
        ensures
            s.phase is Stopping,
    {
    }

    /// Settlement of the worker after a stop always drives `is_running`
    /// to false and the service back to idle.
    pub proof fn lemma_settlement_stops(s: RfidBackgroundService)
        requires
            s.inv(),
            s.phase is Stopping,
        ensures
            !Self::step_model(s, ServiceInput::Worker(WorkerEvent::Settled)).state.is_running,
            Self::step_model(s, ServiceInput::Worker(WorkerEvent::Settled)).phase is Idle,
    {
    }

    /// A start followed at once by a stop and the worker's settlement
    /// leaves the service idle with `is_running` false.
    pub proof fn lemma_start_stop_settles(s: RfidBackgroundService)
        requires
            s.inv(),
            s.phase is Idle,
        ensures
            ({
                let done = Self::run_model(
                    s,
                    seq![
                        ServiceInput::Command(ServiceCommand::Start),
                        ServiceInput::Command(ServiceCommand::Stop),
                        ServiceInput::Worker(WorkerEvent::Settled),
                    ],
                );
                !done.state.is_running && done.phase is Idle
            }),
    {
        let inputs = seq![
            ServiceInput::Command(ServiceCommand::Start),
            ServiceInput::Command(ServiceCommand::Stop),
            ServiceInput::Worker(WorkerEvent::Settled),
        ];
        let s1 = Self::step_model(s, inputs[0]);
        let s2 = Self::step_model(s1, inputs[1]);
        let s3 = Self::step_model(s2, inputs[2]);
        assert(Self::run_model(s, inputs) == Self::run_model(s1, inputs.skip(1)));
        assert(inputs.skip(1)[0] == inputs[1]);
        assert(Self::run_model(s1, inputs.skip(1)) == Self::run_model(s2, inputs.skip(1).skip(1)));
        assert(inputs.skip(1).skip(1)[0] == inputs[2]);
        assert(Self::run_model(s2, inputs.skip(1).skip(1)) == Self::run_model(
            s3,
            inputs.skip(1).skip(1).skip(1),
        ));
        assert(inputs.skip(1).skip(1).skip(1).len() == 0);
    }
}

/// Outcome of one poll iteration, as the worker reports it to the
/// published state.
#[derive(Debug)]
pub enum ScanObservation {
    /// A tag was read; the event carries its UID.
    Tag(RfidScanEvent),
    /// No card in range, or a poll timeout: a normal outcome, never
    /// counted as an error.
    Benign,
    /// A real fault of the reader.
    Fault(String),
}

impl RfidBackgroundService {
    /// Fold one poll outcome into the published state: a detection
    /// replaces the last scan and clears the last error, a benign
    /// outcome changes nothing, and a fault is counted and recorded.
    pub fn observe_scan(&mut self, observation: ScanObservation)
        ensures
            match observation {
                ScanObservation::Tag(ev) => *final(self) == RfidBackgroundService {
                    state: RfidServiceState {
                        last_scan: Some(ev),
                        last_error: None,
                        ..old(self).state
                    },
                    ..*old(self)
                },
                ScanObservation::Benign => *final(self) == *old(self),
                ScanObservation::Fault(msg) => *final(self) == RfidBackgroundService {
                    state: RfidServiceState {
                        error_count: if old(self).state.error_count < u32::MAX {
                            (old(self).state.error_count + 1) as u32
                        } else {
                            old(self).state.error_count
                        },
                        last_error: Some(msg),
                        ..old(self).state
                    },
                    ..*old(self)
                },
            },
    {
        match observation {
            ScanObservation::Tag(ev) => {
                self.state.last_scan = Some(ev);
                self.state.last_error = None;
            },
            ScanObservation::Benign => {},
            ScanObservation::Fault(msg) => {
                if self.state.error_count < u32::MAX {
                    self.state.error_count = self.state.error_count + 1;
                }
                self.state.last_error = Some(msg);
            },
        }
    }
}

} // verus!
