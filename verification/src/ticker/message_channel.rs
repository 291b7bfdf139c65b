//! Core for the duplex-channel backend: a pair of connected message ports,
//! where schedule-once is posting a message and cancellation is tearing the
//! channel down rather than revoking a token.

use vstd::prelude::*;

use crate::{fire_runs, sched_next, start_next, start_verdict, stop_next};
use crate::{State, TickerError};

verus! {

/// The recurring-task state machine of a duplex-channel ticker.
///
/// The unverified driver owns the two ports and the message handler. It
/// consults this core before every action and reports every post outcome
/// back:
///
/// - `start` / `start_immediate` decide whether posting is allowed;
/// - after each post attempt the driver calls `note_post` with the outcome;
/// - when a message is delivered, the driver runs the task and posts again
///   only if `fire_check` says so;
/// - `stop` merely flips the state: an in-flight message is skipped at
///   delivery, and the ports are closed only at teardown, by the driver.
pub struct MessageChannelTicker {
    state: State,
}

impl View for MessageChannelTicker {
    type V = State;

    closed spec fn view(&self) -> State {
        self.state
    }
}

impl MessageChannelTicker {
    /// A fresh ticker: `Stopped`.
    pub fn new() -> (t: MessageChannelTicker)
        ensures
            t@ == State::Stopped,
    {
        MessageChannelTicker { state: State::Stopped }
    }

    /// Snapshot of the current lifecycle state.
    pub fn state(&self) -> (s: State)
        ensures
            s == self@,
    {
        self.state
    }

    /// Begin starting: `Stopped` becomes `Started` and the caller must then
    /// post one message and report it via [`Self::note_post`]; `Started`
    /// rejects with `AlreadyStarted`; `Error` re-reports the latched cause.
    pub fn start(&mut self) -> (r: Result<(), TickerError>)
        ensures
            r == start_verdict(old(self)@),
            final(self)@ == start_next(old(self)@),
    {
        match self.state {
            State::Stopped => {
                self.state = State::Started;
                Ok(())
            },
            State::Started => Err(TickerError::AlreadyStarted),
            State::Error(cause) => Err(TickerError::SchedulingFailure(cause)),
        }
    }

    /// Same transition as [`Self::start`]; on success the caller invokes the
    /// message handler synchronously once instead of posting first.
    pub fn start_immediate(&mut self) -> (r: Result<(), TickerError>)
        ensures
            r == start_verdict(old(self)@),
            final(self)@ == start_next(old(self)@),
    {
        self.start()
    }

    /// Whether a delivered message runs the task and posts again: only while
    /// `Started`. A delivery that finds any other state is skipped silently.
    pub fn fire_check(&self) -> (run: bool)
        ensures
            run == fire_runs(self@),
    {
        match self.state {
            State::Started => true,
            _ => false,
        }
    }

    /// Record the outcome of a post attempt (the first arm or a rearm).
    /// Posting yields no token; a failure latches the cause as `Error` and
    /// reports it back.
    pub fn note_post(&mut self, outcome: Result<(), u64>) -> (r: Result<(), u64>)
        ensures
            outcome is Ok ==> final(self)@ == old(self)@ && r is Ok,
            outcome matches Err(c) ==> final(self)@ == sched_next(old(self)@, Err(c)) && r
                == Err::<(), u64>(c),
    {
        match outcome {
            Ok(()) => Ok(()),
            Err(cause) => {
                self.state = State::Error(cause);
                Err(cause)
            },
        }
    }

    /// Stop: when `Started`, become `Stopped`; otherwise a no-op. There is
    /// no token to cancel: an in-flight message is skipped at delivery.
    pub fn stop(&mut self)
        ensures
            final(self)@ == stop_next(old(self)@),
    {
        match self.state {
            State::Started => {
                self.state = State::Stopped;
            },
            _ => {},
        }
    }
}

} // verus!
