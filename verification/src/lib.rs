//! Protocol core of a client for a remote interactive code-execution service.
//!
//! The crate holds the message schema, the wire encoding of frames, the session
//! state machine that correlates server messages with the request in flight, the
//! handle through which a caller drains output and takes the final result, and
//! the decoder for newline-delimited result streams. It performs no I/O: a
//! driver moves frames between this crate and the transport.

pub mod api;
pub mod client;
pub mod json;
pub mod text;
pub mod util;

use vstd::prelude::*;

verus! {

/// Address of the public service.
pub const DEFAULT_SERVER_URL: &'static str = "https://api.forevervm.com";

} // verus!
