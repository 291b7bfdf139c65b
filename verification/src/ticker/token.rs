//! Core for the backends whose pending firing is canceled by token
//! (timed, immediate, and frame-synchronized host primitives).

use vstd::prelude::*;

use crate::{fire_runs, sched_next, start_next, start_verdict, stop_next};
use crate::{State, TickerError, TickerView};

verus! {

/// The recurring-task state machine of a token-canceled ticker.
///
/// The unverified driver owns the host primitive. It consults this core
/// before every action and reports every schedule-once outcome back:
///
/// - `start` / `start_immediate` decide whether arming is allowed;
/// - after each host schedule-once attempt the driver calls `note_sched`
///   with the returned token or the failure cause;
/// - when the host delivers a firing, the driver runs the task and rearms
///   only if `fire_check` says so;
/// - `stop` and `teardown` hand back the token the driver must cancel.
pub struct TokenTicker {
    state: State,
    token: Option<u64>,
}

impl View for TokenTicker {
    type V = TickerView;

    closed spec fn view(&self) -> TickerView {
        TickerView { state: self.state, token: self.token }
    }
}

impl TokenTicker {
    /// A fresh ticker: `Stopped`, nothing pending.
    pub fn new() -> (t: TokenTicker)
        ensures
            t@.state == State::Stopped,
            t@.token is None,
    {
        TokenTicker { state: State::Stopped, token: None }
    }

    /// Snapshot of the current lifecycle state.
    pub fn state(&self) -> (s: State)
        ensures
            s == self@.state,
    {
        self.state
    }

    /// Clone of the latest cancellation token, if one is held.
    pub fn token(&self) -> (t: Option<u64>)
        ensures
            t == self@.token,
    {
        self.token
    }

    /// Begin starting: `Stopped` becomes `Started` and the caller must then
    /// attempt one host schedule and report it via [`Self::note_sched`];
    /// `Started` rejects with `AlreadyStarted`; `Error` re-reports the
    /// latched cause. The token slot is untouched.
    pub fn start(&mut self) -> (r: Result<(), TickerError>)
        ensures
            r == start_verdict(old(self)@.state),
            final(self)@.state == start_next(old(self)@.state),
            final(self)@.token == old(self)@.token,
    {
        match self.state {
            State::Stopped => {
                self.state = State::Started;
                Ok(())
            },
            State::Started => Err(TickerError::AlreadyStarted),
            State::Error(cause) => Err(TickerError::SchedulingFailure(cause)),
        }
    }

    /// Same transition as [`Self::start`]; on success the caller performs
    /// one firing cycle synchronously (task, then rearm) instead of waiting
    /// for the first host-scheduled firing.
    pub fn start_immediate(&mut self) -> (r: Result<(), TickerError>)
        ensures
            r == start_verdict(old(self)@.state),
            final(self)@.state == start_next(old(self)@.state),
            final(self)@.token == old(self)@.token,
    {
        self.start()
    }

    /// Whether a firing delivered now runs the task and rearms: only while
    /// `Started`. A firing that finds any other state is skipped silently.
    pub fn fire_check(&self) -> (run: bool)
        ensures
            run == fire_runs(self@.state),
    {
        match self.state {
            State::Started => true,
            _ => false,
        }
    }

    /// Record the outcome of a host schedule-once attempt (the first arm or
    /// a rearm). Success stores the new token; failure latches the cause as
    /// `Error` and reports it back.
    pub fn note_sched(&mut self, outcome: Result<u64, u64>) -> (r: Result<(), u64>)
        ensures
            final(self)@.state == sched_next(old(self)@.state, outcome),
            outcome matches Ok(t) ==> final(self)@.token == Some(t) && r is Ok,
            outcome matches Err(c) ==> final(self)@.token == old(self)@.token && r == Err::<(), u64>(c),
    {
        match outcome {
            Ok(t) => {
                self.token = Some(t);
                Ok(())
            },
            Err(cause) => {
                self.state = State::Error(cause);
                Err(cause)
            },
        }
    }

    /// Stop: when `Started`, hand back the pending token (the caller must
    /// cancel it with the host) and become `Stopped`; in any other state a
    /// no-op that returns nothing to cancel.
    pub fn stop(&mut self) -> (cancel: Option<u64>)
        ensures
            final(self)@.state == stop_next(old(self)@.state),
            old(self)@.state is Started ==> final(self)@.token is None && cancel == old(self)@.token,
            !(old(self)@.state is Started) ==> final(self)@ == old(self)@ && cancel is None,
    {
        match self.state {
            State::Started => {
                self.state = State::Stopped;
                let cancel = self.token;
                self.token = None;
                cancel
            },
            _ => None,
        }
    }

    /// Teardown on drop of the last handle: hand back any pending token for
    /// cancellation, whatever the state.
    pub fn teardown(&mut self) -> (cancel: Option<u64>)
        ensures
            final(self)@.state == old(self)@.state,
            final(self)@.token is None,
            cancel == old(self)@.token,
    {
        let cancel = self.token;
        self.token = None;
        cancel
    }
}

} // verus!
