//! The lifecycle controller: startup, request admission under a timeout, and
//! two-phase graceful shutdown.
//!
//! The controller is a state machine from phase and event to next phase and
//! action. The surrounding process observes the outside world (TLS key
//! loading, connections, termination signals, timers), feeds each observation
//! in as an [`Event`], and performs the returned [`Action`].

use vstd::prelude::*;

use crate::errors::RequestError;

verus! {

/// Default admission timeout: how long one request may take, in milliseconds.
pub const DEFAULT_ADMISSION_TIMEOUT_MS: u64 = 10000;

/// Default drain window after a shutdown signal, in milliseconds.
pub const DEFAULT_DRAIN_WINDOW_MS: u64 = 30000;

/// Phase of the server lifecycle.
#[derive(Clone, Copy, PartialEq, Eq, Structural, Debug)]
pub enum Phase {
    /// Loading TLS key material; not yet accepting connections.
    Starting,
    /// Accepting connections and serving requests.
    Serving,
    /// A termination signal arrived: no new connections; in-flight requests
    /// may finish within the drain window.
    ShuttingDown,
    /// The process is done serving.
    Stopped,
}

/// An observation the controller reacts to.
#[derive(Clone, Copy, PartialEq, Eq, Structural, Debug)]
pub enum Event {
    /// TLS key material was read and is valid.
    TlsLoaded,
    /// TLS key material is missing or invalid.
    TlsFailed,
    /// A new request asks to be admitted.
    RequestArrived,
    /// An in-flight request finished.
    RequestFinished,
    /// An external termination trigger (interrupt or terminate); the first
    /// one received is authoritative.
    Signal,
    /// The drain window elapsed.
    DrainDeadline,
}

/// What the surrounding process must do after a step.
#[derive(Clone, Copy, PartialEq, Eq, Structural, Debug)]
pub enum Action {
    /// Nothing to do.
    Continue,
    /// Startup failed fatally: do not serve (a `StartupFailure`).
    AbortStartup,
    /// Start accepting connections.
    AcceptConnections,
    /// Admit the request that just arrived.
    Admit,
    /// Refuse the connection: the server is shutting down.
    RejectConnection,
    /// Stop accepting new connections and start the drain timer.
    BeginDrain,
    /// Terminate: drained, deadline elapsed, or stopped before serving.
    Stop,
}

/// The lifecycle controller. `in_flight` counts admitted requests that have
/// not finished.
pub struct Controller {
    pub phase: Phase,
    pub in_flight: usize,
    pub admission_timeout_ms: u64,
    pub drain_window_ms: u64,
}

/// The phase after observing `e` in state `c`.
pub open spec fn spec_next(c: Controller, e: Event) -> Controller {
    match c.phase {
        Phase::Starting => match e {
            Event::TlsLoaded => Controller { phase: Phase::Serving, ..c },
            Event::TlsFailed => Controller { phase: Phase::Stopped, ..c },
            Event::Signal => Controller { phase: Phase::Stopped, ..c },
            _ => c,
        },
        Phase::Serving => match e {
            Event::RequestArrived => (Controller {
                in_flight: if c.in_flight < usize::MAX {
                    (c.in_flight + 1) as usize
                } else {
                    c.in_flight
                },
                ..c
            }),
            Event::RequestFinished => (Controller {
                in_flight: if c.in_flight > 0 {
                    (c.in_flight - 1) as usize
                } else {
                    0
                },
                ..c
            }),
            Event::Signal => Controller { phase: Phase::ShuttingDown, ..c },
            _ => c,
        },
        Phase::ShuttingDown => match e {
            Event::RequestFinished => {
                let left: usize = if c.in_flight > 0 {
                    (c.in_flight - 1) as usize
                } else {
                    0
                };
                if left == 0 {
                    Controller { phase: Phase::Stopped, in_flight: left, ..c }
                } else {
                    Controller { in_flight: left, ..c }
                }
            },
            Event::DrainDeadline => Controller { phase: Phase::Stopped, ..c },
            _ => c,
        },
        Phase::Stopped => c,
    }
}

/// The action owed after observing `e` in state `c`.
pub open spec fn spec_action(c: Controller, e: Event) -> Action {
    match c.phase {
        Phase::Starting => match e {
            Event::TlsLoaded => Action::AcceptConnections,
            Event::TlsFailed => Action::AbortStartup,
            Event::Signal => Action::Stop,
            _ => Action::Continue,
        },
        Phase::Serving => match e {
            Event::RequestArrived => Action::Admit,
            Event::Signal => Action::BeginDrain,
            _ => Action::Continue,
        },
        Phase::ShuttingDown => match e {
            Event::RequestArrived => Action::RejectConnection,
            Event::RequestFinished => {
                if c.in_flight <= 1 {
                    Action::Stop
                } else {
                    Action::Continue
                }
            },
            Event::DrainDeadline => Action::Stop,
            _ => Action::Continue,
        },
        Phase::Stopped => Action::Continue,
    }
}

impl Controller {
    /// A controller about to start, with the given admission timeout and
    /// drain window (both in milliseconds).
    pub fn new(admission_timeout_ms: u64, drain_window_ms: u64) -> (c: Controller)
        ensures
            c.phase == Phase::Starting,
            c.in_flight == 0,
            c.admission_timeout_ms == admission_timeout_ms,
            c.drain_window_ms == drain_window_ms,
    {
        Controller { phase: Phase::Starting, in_flight: 0, admission_timeout_ms, drain_window_ms }
    }

    /// Observe one event; the new state is `spec_next`, the returned action
    /// `spec_action`. In particular: the shutdown transition happens exactly
    /// once, on the first signal; a second signal while already shutting
    /// down has no effect; the configured durations never change.
    pub fn step(&mut self, e: Event) -> (a: Action)
        ensures
            *final(self) == spec_next(*old(self), e),
            a == spec_action(*old(self), e),
    {
        match self.phase {
            Phase::Starting => match e {
                Event::TlsLoaded => {
                    self.phase = Phase::Serving;
                    Action::AcceptConnections
                },
                Event::TlsFailed => {
                    self.phase = Phase::Stopped;
                    Action::AbortStartup
                },
                Event::Signal => {
                    self.phase = Phase::Stopped;
                    Action::Stop
                },
                _ => Action::Continue,
            },
            Phase::Serving => match e {
                Event::RequestArrived => {
                    if self.in_flight < usize::MAX {
                        self.in_flight = self.in_flight + 1;
                    }
                    Action::Admit
                },
                Event::RequestFinished => {
                    if self.in_flight > 0 {
                        self.in_flight = self.in_flight - 1;
                    }
                    Action::Continue
                },
                Event::Signal => {
                    self.phase = Phase::ShuttingDown;
                    Action::BeginDrain
                },
                _ => Action::Continue,
            },
            Phase::ShuttingDown => match e {
                Event::RequestArrived => Action::RejectConnection,
                Event::RequestFinished => {
                    if self.in_flight > 0 {
                        self.in_flight = self.in_flight - 1;
                    }
                    if self.in_flight == 0 {
                        self.phase = Phase::Stopped;
                        Action::Stop
                    } else {
                        Action::Continue
                    }
                },
                Event::DrainDeadline => {
                    self.phase = Phase::Stopped;
                    Action::Stop
                },
                _ => Action::Continue,
            },
            Phase::Stopped => Action::Continue,
        }
    }
}

/// The outcome of one admitted request under the admission timeout, as a
/// function of how long its processing took and what it produced.
pub open spec fn spec_admission_outcome<T>(
    elapsed_ms: u64,
    timeout_ms: u64,
    result: Result<T, RequestError>,
) -> Result<T, RequestError> {
    if elapsed_ms > timeout_ms {
        Err(RequestError::RequestTimeout)
    } else {
        result
    }
}

/// Classify one request under the admission timeout: processing that exceeds
/// the timeout fails with `RequestTimeout` instead of keeping the caller
/// waiting; otherwise the request's own outcome stands, unchanged.
pub fn admission_outcome<T>(
    elapsed_ms: u64,
    timeout_ms: u64,
    result: Result<T, RequestError>,
) -> (r: Result<T, RequestError>)
    ensures
        r == spec_admission_outcome(elapsed_ms, timeout_ms, result),
{
    if elapsed_ms > timeout_ms {
        Err(RequestError::RequestTimeout)
    } else {
        result
    }
}

/// During the shutdown drain, a request already in flight when the signal
/// arrived still completes with its normal outcome if it finishes within the
/// admission timeout and before the drain deadline: draining changes the
/// lifecycle state only, never the result of an admitted request.
pub proof fn lemma_drain_preserves_outcome<T>(
    c: Controller,
    elapsed_ms: u64,
    result: Result<T, RequestError>,
)
    requires
        c.phase == Phase::ShuttingDown,
        c.in_flight >= 1,
        elapsed_ms <= c.admission_timeout_ms,
    ensures
        spec_admission_outcome(elapsed_ms, c.admission_timeout_ms, result) == result,
        spec_next(c, Event::RequestFinished).in_flight == c.in_flight - 1,
        c.in_flight == 1 ==> spec_next(c, Event::RequestFinished).phase == Phase::Stopped,
        c.in_flight > 1 ==> spec_next(c, Event::RequestFinished).phase == Phase::ShuttingDown,
{
}

/// A second termination signal while already shutting down has no effect:
/// the first signal is authoritative.
pub proof fn lemma_second_signal_no_effect(c: Controller)
    requires
        c.phase == Phase::ShuttingDown,
    ensures
        spec_next(c, Event::Signal) == c,
        spec_action(c, Event::Signal) == Action::Continue,
{
}

} // verus!
