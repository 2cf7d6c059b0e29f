//! Helpers for tests that run against a local execution environment.

pub mod execution;
pub mod fixtures;
