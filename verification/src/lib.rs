//! A micro-benchmark harness that compares the insert and lookup latency of
//! two keyed containers — the standard hasher-backed map and an FNV-hashed
//! map — across a sweep of key sizes.
//!
//! The pipeline for one run is: generate a batch of random keys, time one
//! insert per key into a fresh container, time one lookup per key against the
//! populated container while accumulating a checksum of the values found, and
//! report total and average duration per pass.

pub mod clock;
pub mod containers;
pub mod driver;
pub mod keygen;
pub mod model;
pub mod passes;
pub mod report;
