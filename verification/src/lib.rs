//! Core logic of a desktop recording backend: resolving a bearer token for
//! the transcription sidecar, interpreting the sidecar's output, building
//! and interpreting requests to a local generative-model HTTP service, and
//! computing the paths and error messages of the recording persister.
//!
//! All I/O (spawning the sidecar, the HTTP transport, the filesystem) lives
//! outside this crate; the functions here work on plain values and carry
//! contracts for every step that decides or computes.

pub mod credentials;
pub mod jsonio;
pub mod sidecar;
pub mod summarize;
pub mod persist;
pub mod text;
