//! Layered configuration for the skipper monitoring agent.
//!
//! The record is resolved from command-line flags, the process environment
//! and an optional `KEY=VALUE` file, all handed in as plain values: nothing
//! here reads or changes process-wide state.

pub mod cache;
pub mod config;
pub mod fields;
pub mod flags;
pub mod laws;
pub mod sources;
pub mod text;
pub mod values;
