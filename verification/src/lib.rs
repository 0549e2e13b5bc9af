//! Concurrent-model registry and request dispatch for a local-inference
//! plugin: a table of loaded model handles keyed by model path, with
//! idempotent load, explicit unload, listing, metadata inspection, and
//! generation requests, plus the two boundary front-ends (structured method
//! invocation and CLI commands) that reduce to those operations.

pub mod cli;
pub mod dispatch;
pub mod handle;
pub mod jsonarg;
pub mod jsonout;
pub mod laws;
pub mod registry;
pub mod strutil;
