//! Decode-and-relay core for a length-prefixed Opus audio stream.

pub mod android_log;
pub mod framing;
pub mod manager;
pub mod priority;
pub mod relay;
pub mod session;
pub mod session_laws;
