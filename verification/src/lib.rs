//! The decisions behind remote terminals: which commands run on a host, which host keys are
//! trusted, how a session is opened step by step, and what its output turns into. Everything
//! here is plain values in and plain values out; connections, processes and threads belong to
//! the caller.

pub mod bootstrap;
pub mod channel;
pub mod client;
pub mod command;
pub mod error;
pub mod idpass;
pub mod shell;
pub mod stream;
pub mod text;
