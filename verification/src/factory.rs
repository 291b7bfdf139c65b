//! Backend selection: which host primitive a ticker is built on.

use vstd::prelude::*;

use crate::ticker::{AutoTicker, MessageChannelTicker, TokenTicker};
use crate::{State, TickerError};

verus! {

/// The four host one-shot primitives a ticker can be built on, in
/// descending selection priority.
#[derive(Clone, Copy, PartialEq, Eq, Structural, Debug)]
pub enum Backend {
    MessageChannel,
    Immediate,
    Timeout,
    AnimationFrame,
}

/// Which backends the host exposes. The driver probes the host's global
/// capability surface once per process and memoizes the four answers; they
/// must not change for the lifetime of the process.
#[derive(Clone, Copy, PartialEq, Eq, Structural, Debug)]
pub struct Availability {
    pub message_channel: bool,
    pub immediate: bool,
    pub timeout: bool,
    pub animation_frame: bool,
}

/// The first available backend in priority order: duplex channel, then
/// immediate, then timed, then frame-synchronized; `None` when the host
/// exposes none of the four.
pub open spec fn selected_backend(avail: Availability) -> Option<Backend> {
    if avail.message_channel {
        Some(Backend::MessageChannel)
    } else if avail.immediate {
        Some(Backend::Immediate)
    } else if avail.timeout {
        Some(Backend::Timeout)
    } else if avail.animation_frame {
        Some(Backend::AnimationFrame)
    } else {
        None
    }
}

/// Pick the backend for the given availability, by descending priority.
pub fn select_backend(avail: Availability) -> (r: Option<Backend>)
    ensures
        r == selected_backend(avail),
{
    if avail.message_channel {
        Some(Backend::MessageChannel)
    } else if avail.immediate {
        Some(Backend::Immediate)
    } else if avail.timeout {
        Some(Backend::Timeout)
    } else if avail.animation_frame {
        Some(Backend::AnimationFrame)
    } else {
        None
    }
}

/// Builds an [`AutoTicker`] on the first available backend.
#[derive(Clone, Copy)]
pub struct AutoTickerFactory;

impl AutoTickerFactory {
    /// Construct a fresh ticker on the selected backend, or report
    /// `BackendUnavailable` when the host exposes none.
    pub fn new(avail: Availability) -> (r: Result<AutoTicker, TickerError>)
        ensures
            selected_backend(avail) is None ==> r == Err::<AutoTicker, TickerError>(
                TickerError::BackendUnavailable,
            ),
            selected_backend(avail) matches Some(b) ==> (r matches Ok(t)
                && t.backend_of() == b
                && t@.state == State::Stopped
                && t@.token is None),
    {
        match select_backend(avail) {
            None => Err(TickerError::BackendUnavailable),
            Some(Backend::MessageChannel) => Ok(
                AutoTicker::MessageChannel(MessageChannelTicker::new()),
            ),
            Some(Backend::Immediate) => Ok(AutoTicker::Immediate(TokenTicker::new())),
            Some(Backend::Timeout) => Ok(AutoTicker::Timeout(TokenTicker::new())),
            Some(Backend::AnimationFrame) => Ok(AutoTicker::AnimationFrame(TokenTicker::new())),
        }
    }
}

} // verus!
