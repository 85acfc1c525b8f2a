//! Error numbers of the kernel.

use vstd::prelude::*;

verus! {

/// Why a request was refused.
#[derive(Clone, Copy, Debug, PartialEq, Eq, Structural)]
pub enum SystemError {
    /// Operation not permitted.
    EPERM,
    /// No such file or directory.
    ENOENT,
    /// No such process.
    ESRCH,
    /// Input/output error.
    EIO,
    /// Bad address.
    EFAULT,
    /// Inappropriate I/O control operation.
    ENOTTY,
    /// Restart the system call once the signal was handled.
    ERESTARTSYS,
    /// No such I/O control command.
    ENOIOCTLCMD,
    /// Any other error number, passed on from the part of the kernel that
    /// raised it.
    Other(i32),
}

} // verus!
