//! A minimal traffic relay: bytes accepted at one network endpoint are
//! forwarded verbatim to another, in stream (TCP) or datagram (UDP) mode.
//!
//! The verified core holds the relay configuration and its validation, the
//! protocol dispatch, the stream relay's accept/dial state machine, the
//! per-session byte-copy bookkeeping, and the datagram truncate-and-forward
//! step. The surrounding process (argument parsing, sockets, the async
//! runtime) drives these state machines from outside.

pub mod options;
pub mod program;
pub mod stream;
pub mod datagram;
