//! An echo relay: each accepted connection gets its own session, which sends
//! back on the same connection every text or binary frame that it receives,
//! in order and unchanged, and drops every control frame.
pub mod frame;
pub mod relay;
pub mod session;
pub mod listener;
