//! Recurring-task core over one-shot host scheduling primitives.
//!
//! A host runtime offers "run this callback once, later" primitives with
//! differing latency and availability. This library verifies the layer that
//! turns such a primitive into a repeating, cancelable, observable ticker:
//! the lifecycle state machine, the firing/rearm protocol, the cancellation
//! discipline, and the backend selection by priority.
//!
//! The host calls themselves (posting on a message channel, arming a timer,
//! probing the global namespace) are performed by an unverified driver that
//! consults the functions here for every decision and reports every outcome
//! back as a plain value.

use vstd::prelude::*;

pub mod factory;
pub mod ticker;
pub mod trace;

verus! {

/// Running state of a ticker.
///
/// `Error` latches the opaque identifier of a host scheduling failure; the
/// driver assigns the identifier when the host primitive reports a failure.
#[derive(Clone, Copy, PartialEq, Eq, Structural, Debug)]
pub enum State {
    Started,
    Stopped,
    Error(u64),
}

/// Errors reported by ticker lifecycle calls.
#[derive(Clone, Copy, PartialEq, Eq, Structural, Debug)]
pub enum TickerError {
    /// `start` or `start_immediate` called while already `Started`.
    AlreadyStarted,
    /// No backend's host primitive is available.
    BackendUnavailable,
    /// A host schedule-once call failed; carries the driver-assigned
    /// identifier of the cause.
    SchedulingFailure(u64),
}

/// Mathematical model of one ticker: its lifecycle state and the
/// cancellation token of the pending one-shot schedule, if any.
pub ghost struct TickerView {
    pub state: State,
    pub token: Option<u64>,
}

/// Verdict of a `start` or `start_immediate` call in state `s`.
pub open spec fn start_verdict(s: State) -> Result<(), TickerError> {
    match s {
        State::Stopped => Ok(()),
        State::Started => Err(TickerError::AlreadyStarted),
        State::Error(cause) => Err(TickerError::SchedulingFailure(cause)),
    }
}

/// State after a `start` or `start_immediate` call in state `s`.
pub open spec fn start_next(s: State) -> State {
    match s {
        State::Stopped => State::Started,
        _ => s,
    }
}

/// State after the driver reports a schedule-once outcome: success keeps the
/// state, failure latches the cause.
pub open spec fn sched_next(s: State, outcome: Result<u64, u64>) -> State {
    match outcome {
        Ok(_) => s,
        Err(cause) => State::Error(cause),
    }
}

/// Whether a delivered firing runs the task: only while `Started`.
pub open spec fn fire_runs(s: State) -> bool {
    s is Started
}

/// State after a `stop` call in state `s`.
pub open spec fn stop_next(s: State) -> State {
    match s {
        State::Started => State::Stopped,
        _ => s,
    }
}

} // verus!
