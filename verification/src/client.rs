//! The session with one machine.

pub mod error;
pub mod http;
pub mod repl;
pub mod stream;
pub mod trace;
