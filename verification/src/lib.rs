//! Verified core of three kernel subsystems: per-task uprobe state, terminal
//! job control, and the template layer of `/proc`.

pub mod error;
pub mod process;
pub mod procfs;
pub mod text;
pub mod tty;
