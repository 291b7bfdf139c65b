//! Tagged union over the per-backend ticker cores. The active variant is
//! fixed at construction by [`crate::factory::AutoTickerFactory`] and every
//! lifecycle call is forwarded to it verbatim; no re-selection occurs.

use vstd::prelude::*;

use crate::factory::{select_backend, selected_backend, Availability, Backend};
use crate::ticker::{MessageChannelTicker, TokenTicker};
use crate::{start_next, start_verdict, stop_next};
use crate::{State, TickerError, TickerView};

verus! {

/// A ticker on whichever backend was selected: the duplex-channel core, or
/// the token core driven by the immediate, timed, or frame-synchronized
/// primitive.
pub enum AutoTicker {
    MessageChannel(MessageChannelTicker),
    Timeout(TokenTicker),
    Immediate(TokenTicker),
    AnimationFrame(TokenTicker),
}

impl View for AutoTicker {
    type V = TickerView;

    open spec fn view(&self) -> TickerView {
        match self {
            AutoTicker::MessageChannel(t) => TickerView { state: t@, token: None },
            AutoTicker::Timeout(t) => t@,
            AutoTicker::Immediate(t) => t@,
            AutoTicker::AnimationFrame(t) => t@,
        }
    }
}

impl AutoTicker {
    /// The backend this ticker was built on.
    pub open spec fn backend_of(&self) -> Backend {
        match self {
            AutoTicker::MessageChannel(_) => Backend::MessageChannel,
            AutoTicker::Timeout(_) => Backend::Timeout,
            AutoTicker::Immediate(_) => Backend::Immediate,
            AutoTicker::AnimationFrame(_) => Backend::AnimationFrame,
        }
    }

    /// The backend this ticker was built on.
    pub fn backend(&self) -> (b: Backend)
        ensures
            b == self.backend_of(),
    {
        match self {
            AutoTicker::MessageChannel(_) => Backend::MessageChannel,
            AutoTicker::Timeout(_) => Backend::Timeout,
            AutoTicker::Immediate(_) => Backend::Immediate,
            AutoTicker::AnimationFrame(_) => Backend::AnimationFrame,
        }
    }

    /// Snapshot of the active variant's lifecycle state.
    pub fn state(&self) -> (s: State)
        ensures
            s == self@.state,
    {
        match self {
            AutoTicker::MessageChannel(t) => t.state(),
            AutoTicker::Timeout(t) => t.state(),
            AutoTicker::Immediate(t) => t.state(),
            AutoTicker::AnimationFrame(t) => t.state(),
        }
    }

    /// Forwarded [`MessageChannelTicker::start`] / [`TokenTicker::start`]:
    /// the caller must then arm the active backend's primitive and report
    /// the outcome to the active core.
    pub fn start(&mut self) -> (r: Result<(), TickerError>)
        ensures
            r == start_verdict(old(self)@.state),
            final(self)@.state == start_next(old(self)@.state),
            final(self)@.token == old(self)@.token,
            final(self).backend_of() == old(self).backend_of(),
    {
        match self {
            AutoTicker::MessageChannel(t) => t.start(),
            AutoTicker::Timeout(t) => t.start(),
            AutoTicker::Immediate(t) => t.start(),
            AutoTicker::AnimationFrame(t) => t.start(),
        }
    }

    /// Forwarded `start_immediate`: same transition as [`Self::start`], and
    /// on success the caller performs one firing cycle synchronously.
    pub fn start_immediate(&mut self) -> (r: Result<(), TickerError>)
        ensures
            r == start_verdict(old(self)@.state),
            final(self)@.state == start_next(old(self)@.state),
            final(self)@.token == old(self)@.token,
            final(self).backend_of() == old(self).backend_of(),
    {
        match self {
            AutoTicker::MessageChannel(t) => t.start_immediate(),
            AutoTicker::Timeout(t) => t.start_immediate(),
            AutoTicker::Immediate(t) => t.start_immediate(),
            AutoTicker::AnimationFrame(t) => t.start_immediate(),
        }
    }

    /// Forwarded `stop`. A token core hands back the token to cancel; the
    /// duplex-channel core has none, so nothing is returned for it.
    pub fn stop(&mut self) -> (cancel: Option<u64>)
        ensures
            final(self)@.state == stop_next(old(self)@.state),
            old(self)@.state is Started ==> final(self)@.token is None && cancel == old(
                self,
            )@.token,
            !(old(self)@.state is Started) ==> final(self)@ == old(self)@ && cancel is None,
            final(self).backend_of() == old(self).backend_of(),
    {
        match self {
            AutoTicker::MessageChannel(t) => {
                t.stop();
                None
            },
            AutoTicker::Timeout(t) => t.stop(),
            AutoTicker::Immediate(t) => t.stop(),
            AutoTicker::AnimationFrame(t) => t.stop(),
        }
    }

    /// Which backend a one-shot spawn must use: the process-wide selected
    /// backend, or `BackendUnavailable` when the host exposes none.
    pub fn spawn_backend(avail: Availability) -> (r: Result<Backend, TickerError>)
        ensures
            selected_backend(avail) matches Some(b) ==> r == Ok::<Backend, TickerError>(b),
            selected_backend(avail) is None ==> r == Err::<Backend, TickerError>(
                TickerError::BackendUnavailable,
            ),
    {
        match select_backend(avail) {
            Some(b) => Ok(b),
            None => Err(TickerError::BackendUnavailable),
        }
    }
}

} // verus!
