//! Ticker cores: the verified per-backend state machines.

mod auto;
mod message_channel;
mod token;

pub use auto::AutoTicker;
pub use message_channel::MessageChannelTicker;
pub use token::TokenTicker;
