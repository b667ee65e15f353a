//! Verified core of a single-root static file server.
//!
//! The library turns an untrusted request path and a trusted served root
//! into either a safe resolved path or a typed rejection, and builds the
//! HTTP outcome for each case. All filesystem and network work is left to
//! the surrounding binary; the functions here are pure decisions over
//! plain values, so the security boundary (no response content from
//! outside the served root) is proved rather than tested.

pub mod paths;
pub mod request;
pub mod resolve;
pub mod respond;
