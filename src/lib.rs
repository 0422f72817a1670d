//! A supervised line-delimited JSON-RPC session with a backend process.
//!
//! The library holds the session's decisions: which message to send next,
//! how a response line is checked and paired with its request, how the
//! result envelope is unwrapped and how failures are classified. The caller
//! performs the process and pipe work that each step asks for.

pub mod json;
pub mod codec;
pub mod error;
pub mod envelope;
pub mod session;
pub mod launch;
pub mod replies;
