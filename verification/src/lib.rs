//! Decision core of a chunked uploader for S3-compatible object stores.
//!
//! The crate decides; its caller performs. Reading files, talking to the
//! store and publishing events happen outside: the caller reports what
//! happened as plain values and receives the next thing to do.

pub mod chunk;
pub mod client;
pub mod manager;
pub mod progress;
pub mod registry;
pub mod task;
pub mod trace;
pub mod typ;
pub mod upload;
