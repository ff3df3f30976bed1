//! The life of the telemetry pipeline, from start-up to the last flush.
//!
//! The program that owns the exporters drives this machine: it asks for the
//! action to carry out, carries it out, and reports whether it succeeded.
//! The machine decides what comes next. A failure during start-up degrades
//! what is exported; a failure during shutdown is counted and the shutdown
//! goes on.

use vstd::prelude::*;

verus! {

/// The name under which the game reports to the collector.
pub const SERVICE_NAME: &'static str = "sregame";

/// Seconds between two pushes of the metrics.
pub const METRIC_EXPORT_INTERVAL_SECS: u64 = 10;

/// Seconds granted to the exporters for their last flush.
pub const SHUTDOWN_GRACE_SECS: u64 = 2;

/// The five states of the pipeline, in the order they are passed through.
#[derive(Clone, Copy, Debug, PartialEq, Eq, Structural)]
pub enum LifecycleState {
    Uninitialized,
    Initializing,
    Active,
    ShuttingDown,
    Closed,
}

/// What is exported while the game runs.
#[derive(Clone, Copy, Debug, PartialEq, Eq, Structural)]
pub enum TelemetryMode {
    /// Nothing: logs go to the console only.
    Disabled,
    /// Logs only: traces and metrics could not be set up.
    LogsOnly,
    /// Logs, traces and metrics.
    Full,
}

/// What the owner of the exporters has to do next.
#[derive(Clone, Copy, Debug, PartialEq, Eq, Structural)]
pub enum Action {
    /// Call `start`.
    Start,
    /// Build the log exporter and attach logging to it.
    BuildLogPipeline,
    /// Build the trace and metric exporters and register their providers.
    BuildInstrumentation,
    /// Attach logging to the console alone.
    AttachConsoleLogging,
    /// Run the game, then call `request_exit`.
    Run,
    /// End the session span.
    EndSession,
    /// Shut the trace provider down.
    ShutdownTracer,
    /// Shut the metric provider down.
    ShutdownMeter,
    /// Shut the log provider down.
    ShutdownLogger,
    /// Wait `SHUTDOWN_GRACE_SECS` for the exporters to flush.
    WaitGrace,
    /// Nothing is left to do.
    Finished,
}

impl Action {
    /// The state in which the action is due.
    pub open spec fn state(self) -> LifecycleState {
        match self {
            Action::Start => LifecycleState::Uninitialized,
            Action::BuildLogPipeline => LifecycleState::Initializing,
            Action::BuildInstrumentation => LifecycleState::Initializing,
            Action::AttachConsoleLogging => LifecycleState::Initializing,
            Action::Run => LifecycleState::Active,
            Action::EndSession => LifecycleState::ShuttingDown,
            Action::ShutdownTracer => LifecycleState::ShuttingDown,
            Action::ShutdownMeter => LifecycleState::ShuttingDown,
            Action::ShutdownLogger => LifecycleState::ShuttingDown,
            Action::WaitGrace => LifecycleState::ShuttingDown,
            Action::Finished => LifecycleState::Closed,
        }
    }

    /// How far the action lies from the end: the most actions that can still
    /// follow it.
    pub open spec fn rank(self) -> nat {
        match self {
            Action::Start => 10,
            Action::BuildLogPipeline => 9,
            Action::BuildInstrumentation => 8,
            Action::AttachConsoleLogging => 7,
            Action::Run => 6,
            Action::EndSession => 5,
            Action::ShutdownTracer => 4,
            Action::ShutdownMeter => 3,
            Action::ShutdownLogger => 2,
            Action::WaitGrace => 1,
            Action::Finished => 0,
        }
    }
}

impl LifecycleState {
    /// The place of the state in the order of the five.
    pub open spec fn rank(self) -> nat {
        match self {
            LifecycleState::Uninitialized => 0,
            LifecycleState::Initializing => 1,
            LifecycleState::Active => 2,
            LifecycleState::ShuttingDown => 3,
            LifecycleState::Closed => 4,
        }
    }
}

/// The machine as contracts see it.
pub struct LifecycleView {
    /// The action that is due.
    pub action: Action,
    /// An endpoint was configured.
    pub configured: bool,
    /// The log pipeline was built.
    pub logs: bool,
    /// The trace and metric pipelines were built.
    pub instruments: bool,
    /// A session span is open.
    pub session_open: bool,
    /// How many shutdown steps failed.
    pub failures: nat,
}

impl LifecycleView {
    /// The pipelines that exist were built in order, and only with an
    /// endpoint; a session is open only while the game runs or until the
    /// shutdown has ended it; a shutdown step is due only for what exists.
    pub open spec fn wf(self) -> bool {
        &&& self.instruments ==> self.logs
        &&& self.logs ==> self.configured
        &&& self.action == Action::Start ==> !self.logs
        &&& self.session_open ==> self.action == Action::Run || self.action == Action::EndSession
        &&& self.action == Action::BuildLogPipeline ==> self.configured && !self.logs
        &&& self.action == Action::BuildInstrumentation ==> self.logs && !self.instruments
        &&& self.action == Action::AttachConsoleLogging ==> !self.logs
        &&& self.action == Action::EndSession ==> self.session_open
        &&& self.action == Action::ShutdownTracer ==> self.instruments
        &&& self.action == Action::ShutdownMeter ==> self.instruments
        &&& self.action == Action::ShutdownLogger ==> self.logs
        &&& self.action == Action::WaitGrace ==> self.logs
        &&& self.action.state().rank() < LifecycleState::ShuttingDown.rank() ==> self.failures == 0
        &&& self.failures <= 3
        &&& self.action == Action::ShutdownTracer ==> self.failures == 0
        &&& self.action == Action::ShutdownMeter ==> self.failures <= 1
        &&& self.action == Action::ShutdownLogger ==> self.failures <= 2
        &&& self.action == Action::EndSession ==> self.failures == 0
    }

    /// The state that the machine is in.
    pub open spec fn state(self) -> LifecycleState {
        self.action.state()
    }

    /// What is exported, as far as it has been set up.
    pub open spec fn mode(self) -> TelemetryMode {
        if self.instruments {
            TelemetryMode::Full
        } else if self.logs {
            TelemetryMode::LogsOnly
        } else {
            TelemetryMode::Disabled
        }
    }

    /// The first shutdown step that is due at or after `from`, given what
    /// exists.
    pub open spec fn shutdown_from(self, from: Action) -> Action {
        if from.rank() >= Action::EndSession.rank() && self.session_open {
            Action::EndSession
        } else if from.rank() >= Action::ShutdownTracer.rank() && self.instruments {
            Action::ShutdownTracer
        } else if from.rank() >= Action::ShutdownMeter.rank() && self.instruments {
            Action::ShutdownMeter
        } else if from.rank() >= Action::ShutdownLogger.rank() && self.logs {
            Action::ShutdownLogger
        } else if from.rank() >= Action::WaitGrace.rank() && self.logs {
            Action::WaitGrace
        } else {
            Action::Finished
        }
    }

    /// The machine after `start`: it initializes, with the log pipeline first
    /// if an endpoint is configured and with console logging if none is.
    pub open spec fn started(self) -> LifecycleView {
        if self.action == Action::Start {
            LifecycleView {
                action: if self.configured {
                    Action::BuildLogPipeline
                } else {
                    Action::AttachConsoleLogging
                },
                ..self
            }
        } else {
            self
        }
    }

    /// The machine after the session span was opened or not: only while the
    /// game runs can a session be open.
    pub open spec fn with_session(self, open: bool) -> LifecycleView {
        if self.action == Action::Run {
            LifecycleView { session_open: open, ..self }
        } else {
            self
        }
    }

    /// The machine after the action that was due has been carried out, with
    /// or without success.
    pub open spec fn completed(self, ok: bool) -> LifecycleView {
        match self.action {
            Action::Start => self,
            Action::BuildLogPipeline => if ok {
                LifecycleView { action: Action::BuildInstrumentation, logs: true, ..self }
            } else {
                LifecycleView { action: Action::AttachConsoleLogging, ..self }
            },
            Action::BuildInstrumentation => LifecycleView {
                action: Action::Run,
                instruments: ok,
                ..self
            },
            Action::AttachConsoleLogging => LifecycleView { action: Action::Run, ..self },
            Action::Run => self,
            Action::EndSession => {
                let after = LifecycleView { session_open: false, ..self };
                LifecycleView { action: after.shutdown_from(Action::ShutdownTracer), ..after }
            },
            Action::ShutdownTracer => LifecycleView {
                action: self.shutdown_from(Action::ShutdownMeter),
                failures: if ok {
                    self.failures
                } else {
                    self.failures + 1
                },
                ..self
            },
            Action::ShutdownMeter => LifecycleView {
                action: self.shutdown_from(Action::ShutdownLogger),
                failures: if ok {
                    self.failures
                } else {
                    self.failures + 1
                },
                ..self
            },
            Action::ShutdownLogger => LifecycleView {
                action: self.shutdown_from(Action::WaitGrace),
                failures: if ok {
                    self.failures
                } else {
                    self.failures + 1
                },
                ..self
            },
            Action::WaitGrace => LifecycleView { action: Action::Finished, ..self },
            Action::Finished => self,
        }
    }

    /// The machine after the game asked to exit: from `Run` the shutdown
    /// begins with its first step that is due.
    pub open spec fn exit_requested(self) -> LifecycleView {
        if self.action == Action::Run {
            LifecycleView { action: self.shutdown_from(Action::EndSession), ..self }
        } else {
            self
        }
    }
}

/// The state machine of the telemetry pipeline.
pub struct Lifecycle {
    action: Action,
    configured: bool,
    logs: bool,
    instruments: bool,
    session_open: bool,
    failures: u8,
}

impl View for Lifecycle {
    type V = LifecycleView;

    closed spec fn view(&self) -> LifecycleView {
        LifecycleView {
            action: self.action,
            configured: self.configured,
            logs: self.logs,
            instruments: self.instruments,
            session_open: self.session_open,
            failures: self.failures as nat,
        }
    }
}

impl Lifecycle {
    /// A machine before start-up; `configured` says whether an endpoint is
    /// set.
    pub fn new(configured: bool) -> (l: Lifecycle)
        ensures
            l@.wf(),
            l@ == (LifecycleView {
                action: Action::Start,
                configured,
                logs: false,
                instruments: false,
                session_open: false,
                failures: 0,
            }),
    {
        Lifecycle {
            action: Action::Start,
            configured,
            logs: false,
            instruments: false,
            session_open: false,
            failures: 0,
        }
    }

    /// The action that is due.
    pub fn action(&self) -> (a: Action)
        ensures
            a == self@.action,
    {
        self.action
    }

    /// The state that the machine is in.
    pub fn state(&self) -> (s: LifecycleState)
        ensures
            s == self@.state(),
    {
        match self.action {
            Action::Start => LifecycleState::Uninitialized,
            Action::BuildLogPipeline => LifecycleState::Initializing,
            Action::BuildInstrumentation => LifecycleState::Initializing,
            Action::AttachConsoleLogging => LifecycleState::Initializing,
            Action::Run => LifecycleState::Active,
            Action::EndSession => LifecycleState::ShuttingDown,
            Action::ShutdownTracer => LifecycleState::ShuttingDown,
            Action::ShutdownMeter => LifecycleState::ShuttingDown,
            Action::ShutdownLogger => LifecycleState::ShuttingDown,
            Action::WaitGrace => LifecycleState::ShuttingDown,
            Action::Finished => LifecycleState::Closed,
        }
    }

    /// What is exported, as far as it has been set up.
    pub fn mode(&self) -> (m: TelemetryMode)
        ensures
            m == self@.mode(),
    {
        if self.instruments {
            TelemetryMode::Full
        } else if self.logs {
            TelemetryMode::LogsOnly
        } else {
            TelemetryMode::Disabled
        }
    }

    /// How many shutdown steps have failed.
    pub fn failures(&self) -> (n: u8)
        ensures
            n == self@.failures,
    {
        self.failures
    }

    /// Begins start-up. Says whether it did: only a machine that has not
    /// started can.
    pub fn start(&mut self) -> (began: bool)
        requires
            old(self)@.wf(),
        ensures
            final(self)@.wf(),
            began == (old(self)@.action == Action::Start),
            final(self)@ == old(self)@.started(),
    {
        match self.action {
            Action::Start => {
                self.action = if self.configured {
                    Action::BuildLogPipeline
                } else {
                    Action::AttachConsoleLogging
                };
                true
            },
            _ => false,
        }
    }

    /// Notes whether a session span is open. Says whether it did: only while
    /// the game runs.
    pub fn set_session(&mut self, open: bool) -> (noted: bool)
        requires
            old(self)@.wf(),
        ensures
            final(self)@.wf(),
            noted == (old(self)@.action == Action::Run),
            final(self)@ == old(self)@.with_session(open),
    {
        match self.action {
            Action::Run => {
                self.session_open = open;
                true
            },
            _ => false,
        }
    }

    fn next_shutdown(&self, from: Action) -> (a: Action)
        ensures
            a == self@.shutdown_from(from),
    {
        let rank: u8 = match from {
            Action::Start => 10,
            Action::BuildLogPipeline => 9,
            Action::BuildInstrumentation => 8,
            Action::AttachConsoleLogging => 7,
            Action::Run => 6,
            Action::EndSession => 5,
            Action::ShutdownTracer => 4,
            Action::ShutdownMeter => 3,
            Action::ShutdownLogger => 2,
            Action::WaitGrace => 1,
            Action::Finished => 0,
        };
        if rank >= 5 && self.session_open {
            Action::EndSession
        } else if rank >= 4 && self.instruments {
            Action::ShutdownTracer
        } else if rank >= 3 && self.instruments {
            Action::ShutdownMeter
        } else if rank >= 2 && self.logs {
            Action::ShutdownLogger
        } else if rank >= 1 && self.logs {
            Action::WaitGrace
        } else {
            Action::Finished
        }
    }

    /// The game asked to exit. Says whether the shutdown began: only from
    /// the running state.
    pub fn request_exit(&mut self) -> (began: bool)
        requires
            old(self)@.wf(),
        ensures
            final(self)@.wf(),
            began == (old(self)@.action == Action::Run),
            final(self)@ == old(self)@.exit_requested(),
    {
        match self.action {
            Action::Run => {
                self.action = self.next_shutdown(Action::EndSession);
                true
            },
            _ => false,
        }
    }

    /// The action that was due has been carried out; `ok` says whether it
    /// succeeded. Returns the action that is due now.
    pub fn complete(&mut self, ok: bool) -> (next: Action)
        requires
            old(self)@.wf(),
        ensures
            final(self)@.wf(),
            final(self)@ == old(self)@.completed(ok),
            next == final(self)@.action,
    {
        match self.action {
            Action::Start => {},
            Action::BuildLogPipeline => {
                if ok {
                    self.logs = true;
                    self.action = Action::BuildInstrumentation;
                } else {
                    self.action = Action::AttachConsoleLogging;
                }
            },
            Action::BuildInstrumentation => {
                self.instruments = ok;
                self.action = Action::Run;
            },
            Action::AttachConsoleLogging => {
                self.action = Action::Run;
            },
            Action::Run => {},
            Action::EndSession => {
                self.session_open = false;
                self.action = self.next_shutdown(Action::ShutdownTracer);
            },
            Action::ShutdownTracer => {
                if !ok {
                    self.failures = self.failures + 1;
                }
                self.action = self.next_shutdown(Action::ShutdownMeter);
            },
            Action::ShutdownMeter => {
                if !ok {
                    self.failures = self.failures + 1;
                }
                self.action = self.next_shutdown(Action::ShutdownLogger);
            },
            Action::ShutdownLogger => {
                if !ok {
                    self.failures = self.failures + 1;
                }
                self.action = self.next_shutdown(Action::WaitGrace);
            },
            Action::WaitGrace => {
                self.action = Action::Finished;
            },
            Action::Finished => {},
        }
        self.action
    }
}

/// No step ever leads back: the state after `start`, `request_exit` or a
/// completed action is the same or a later one, and a well-formed machine
/// stays well-formed.
pub proof fn lemma_state_never_goes_back(l: LifecycleView, ok: bool)
    requires
        l.wf(),
    ensures
        l.started().wf(),
        l.completed(ok).wf(),
        l.exit_requested().wf(),
        l.started().state().rank() >= l.state().rank(),
        l.completed(ok).state().rank() >= l.state().rank(),
        l.exit_requested().state().rank() >= l.state().rank(),
        l.started().action.rank() <= l.action.rank(),
        l.completed(ok).action.rank() <= l.action.rank(),
        l.exit_requested().action.rank() <= l.action.rank(),
{
}

/// Start-up and shutdown always go on: whether an action succeeded or
/// failed, completing it brings the machine strictly closer to the end,
/// except where it waits for `start` or for `request_exit`.
pub proof fn lemma_completion_makes_progress(l: LifecycleView, ok: bool)
    requires
        l.wf(),
        l.action != Action::Start,
        l.action != Action::Run,
        l.action != Action::Finished,
    ensures
        l.completed(ok).action.rank() < l.action.rank(),
        l.state() == LifecycleState::Initializing ==> l.completed(ok).state().rank()
            <= LifecycleState::Active.rank(),
        l.state() == LifecycleState::ShuttingDown ==> l.completed(ok).state().rank()
            >= LifecycleState::ShuttingDown.rank(),
{
}

/// A failed shutdown step is counted and skips nothing: the step that
/// follows is the same as after a success.
pub proof fn lemma_shutdown_tolerates_failure(l: LifecycleView)
    requires
        l.wf(),
        l.state() == LifecycleState::ShuttingDown,
    ensures
        l.completed(false).action == l.completed(true).action,
        l.completed(false).failures <= l.completed(true).failures + 1,
{
}

/// With everything built and a session open, the shutdown ends the session,
/// shuts down the trace, metric and log providers in this order, waits for
/// the flush and is finished, whichever of these steps fail.
pub proof fn lemma_full_shutdown_in_order(
    l: LifecycleView,
    ok1: bool,
    ok2: bool,
    ok3: bool,
    ok4: bool,
    ok5: bool,
)
    requires
        l.wf(),
        l.action == Action::Run,
        l.mode() == TelemetryMode::Full,
        l.session_open,
    ensures
        l.exit_requested().action == Action::EndSession,
        l.exit_requested().completed(ok1).action == Action::ShutdownTracer,
        l.exit_requested().completed(ok1).completed(ok2).action == Action::ShutdownMeter,
        l.exit_requested().completed(ok1).completed(ok2).completed(ok3).action
            == Action::ShutdownLogger,
        l.exit_requested().completed(ok1).completed(ok2).completed(ok3).completed(ok4).action
            == Action::WaitGrace,
        l.exit_requested().completed(ok1).completed(ok2).completed(ok3).completed(ok4).completed(
            ok5,
        ).state() == LifecycleState::Closed,
{
}

/// Without an endpoint the machine comes up with telemetry disabled: after
/// `start` console logging is due, and once that is attached the game runs
/// with nothing exported.
pub proof fn lemma_unset_endpoint_disables(l: LifecycleView, ok: bool)
    requires
        l.wf(),
        l.action == Action::Start,
        !l.configured,
    ensures
        l.started().action == Action::AttachConsoleLogging,
        l.started().completed(ok).action == Action::Run,
        l.started().completed(ok).mode() == TelemetryMode::Disabled,
        l.started().completed(ok).exit_requested().action == Action::Finished,
{
}

/// Logging is attached to the console only after the log pipeline was tried
/// and failed, or where no endpoint is set: never while a pipeline is still
/// to be built.
pub proof fn lemma_console_after_pipeline(l: LifecycleView, ok: bool)
    requires
        l.wf(),
        l.completed(ok).action == Action::AttachConsoleLogging,
        l.action != Action::AttachConsoleLogging,
    ensures
        l.action == Action::BuildLogPipeline,
        !ok,
        !l.completed(ok).logs,
{
}

} // verus!
