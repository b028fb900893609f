//! Core of a point-to-point TCP throughput probe.
//!
//! One peer listens and serves bulk data or accepts uploads; the other
//! connects, issues a one-byte command, and streams data in the chosen
//! direction while a background sampler reports the instantaneous rate.
//!
//! This crate holds the verified core: the one-byte session protocol, the
//! transfer-buffer fill pattern and its word-wise validation, and the model
//! of one session's shared byte counter, stop signal and rate sampler. The
//! socket plumbing, thread spawning and logging live in the surrounding
//! binary, which drives these functions with the bytes and events it sees.

pub mod config;
pub mod errors;
pub mod protocol;
pub mod session;
pub mod transfer;
