//! Processes and their per-task probe state.

pub mod frames;
pub mod laws;
pub mod pcb;
pub mod uret;
pub mod xol;
pub mod xol_protocol;
