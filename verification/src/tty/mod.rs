//! Terminals.

pub mod job_control;
pub mod laws;
