//! A line-oriented chat broadcast core: message envelopes and their wire
//! form, a bounded fan-out bus with lag detection, the per-connection session
//! state machine, and the client-side rendering and input rules.

pub mod clock;
pub mod text;
pub mod envelope;
pub mod bus;
pub mod session;
pub mod client;
pub mod connection;
