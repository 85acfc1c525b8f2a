//! The template layer of `/proc`, and the directory of a process in it.

pub mod cache;
pub mod examples;
pub mod exe;
pub mod laws;
pub mod pid;
pub mod template;
