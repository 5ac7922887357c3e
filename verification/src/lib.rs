//! Protocol client core for a remote actor-management service.
//!
//! The library holds the verified heart of a client that drives one
//! short-lived actor over a single duplex connection: the frame
//! demultiplexer and command dispatcher (a state machine over inbound
//! frames), the actor session lifecycle, the decoder that normalizes the
//! actor's raw result bytes into one canonical record, and the retry and
//! timeout policies. The surrounding process (connecting, sending,
//! terminal output) lives outside and feeds this core plain values.

pub mod client;
pub mod decode;
pub mod protocol;
pub mod retry;
pub mod text;
