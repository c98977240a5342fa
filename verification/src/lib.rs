//! A line-oriented chat relay: envelopes, their wire form, the broadcast bus,
//! the per-connection session and the accept loop's policy.

pub mod bus;
pub mod clock;
pub mod codec;
pub mod envelope;
pub mod listener;
pub mod relay;
pub mod session;
pub mod text;
pub mod trace;
