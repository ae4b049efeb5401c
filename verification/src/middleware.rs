//! Per-request decision logic of the gateway's middleware: canary routing
//! and shadow mirroring. The HTTP plumbing around these decisions lives
//! outside the crate.

pub mod canary;
pub mod mirror;
