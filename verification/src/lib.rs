//! Core of a timed network race against a remote service: given the instant
//! at which a time-gated resource is released, the library computes per-attempt
//! schedules, drives each attempt through its state machine, parses the
//! response status, and aggregates the attempts into one race outcome.
//!
//! All network and file I/O lives outside this crate; the library works on
//! plain values (epoch milliseconds, byte buffers, strings) handed in by the
//! caller.

pub mod api;
pub mod attempt;
pub mod config;
pub mod protocol;
pub mod race;
pub mod timing;
