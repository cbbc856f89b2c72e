//! Unified capability probing, ranking and session handling for video
//! encode/decode backends.
//!
//! The crate discovers which backends can satisfy a requested configuration,
//! ranks the viable ones by a deterministic heuristic, and drives a chosen
//! backend through a stateful encode or decode session, including the buffer
//! geometry math that raw-frame buffers require.

pub mod adapter;
pub mod common;
pub mod geometry;
pub mod pool;
pub mod probe;
pub mod rank;
pub mod session;
pub mod soft;
pub mod strtools;
