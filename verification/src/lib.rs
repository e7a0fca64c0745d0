//! A secure-deletion engine: it overwrites file content (or a volume's free
//! space) with one or more prescribed bit-pattern passes before final removal.
//!
//! The engine itself performs no file I/O. It is a verified state machine:
//! the caller asks for the next action (emit a progress snapshot, seek,
//! write a prepared chunk, sync, truncate, remove), performs it on the real
//! file, and asks again. Everything the engine decides — the pass table for
//! each algorithm, chunk sizes, progress throttling, cooperative
//! cancellation, the truncate-then-remove termination order, and outcome
//! messages — is specified and proved here.

pub mod batch;
pub mod engine;
pub mod errors;
pub mod fill;
pub mod paths;
pub mod plan;
pub mod platform;
pub mod progress;
mod rng;
pub mod text;
