//! The part of a process control block that the subsystems here read.

use crate::process::uret::TaskUretState;
use std::sync::{Arc, Weak};
use vstd::prelude::*;

verus! {

/// The number of a process, a process group or a session.
#[derive(Clone, Copy, Debug, PartialEq, Eq, Structural)]
pub struct Pid {
    pub data: usize,
}

/// A process group has the number of the process that founded it.
pub type Pgid = Pid;

/// A session has the number of the process that founded it.
pub type Sid = Pid;

/// A process number as the global namespace counts it.
pub type RawPid = Pid;

impl Pid {
    pub fn new(data: usize) -> (pid: Pid)
        ensures
            pid.data == data,
    {
        Pid { data }
    }

    pub fn data(&self) -> (data: usize)
        ensures
            data == self.data,
    {
        self.data
    }
}

/// Which terminal: two references are the same terminal iff they are equal.
#[derive(Clone, Copy, Debug, PartialEq, Eq, Structural)]
pub struct TtyId {
    pub id: usize,
}

/// Which session object: two references are the same session iff they are
/// equal.
#[derive(Clone, Copy, Debug, PartialEq, Eq, Structural)]
pub struct SessionId {
    pub id: usize,
}

/// A process group and the session it belongs to.
#[derive(Clone, Copy, Debug, PartialEq, Eq)]
pub struct ProcessGroup {
    pub pgid: Pgid,
    pub session: Option<SessionId>,
}

/// One process.
pub struct ProcessControlBlock {
    pub pid: Pid,
    pub pgid: Pgid,
    pub sid: Sid,
    /// Whether the process leads its session.
    pub session_leader: bool,
    /// The session object of the process, while it has one.
    pub session: Option<SessionId>,
    /// The controlling terminal.
    pub tty: Option<TtyId>,
    /// A signal waits for delivery.
    pub has_pending_signal: bool,
    /// Path of the executable.
    pub execute_path: String,
    /// Hijacked function returns of the task.
    pub uret: TaskUretState,
}

impl ProcessControlBlock {
    pub fn is_session_leader(&self) -> (leader: bool)
        ensures
            leader == self.session_leader,
    {
        self.session_leader
    }

    pub fn raw_pid(&self) -> (pid: RawPid)
        ensures
            pid == self.pid,
    {
        self.pid
    }

    pub fn execute_path(&self) -> (path: &String)
        ensures
            *path == self.execute_path,
    {
        &self.execute_path
    }
}

/// exec and exit: discard all of the task's uretprobe return instances. The
/// new context never hits the old trampoline, and the references pinned on the
/// chain are released here.
pub fn cleanup_task_uret_instances(pcb: &mut ProcessControlBlock)
    ensures
        final(pcb).uret@.len() == 0,
        final(pcb).uret.spare_slots() == 0,
        final(pcb).uret.answers() == old(pcb).uret.answers(),
        *final(pcb) == (ProcessControlBlock { uret: final(pcb).uret, ..*old(pcb) }),
{
    pcb.uret.cleanup();
}

/// A `std::sync::Weak` reference to a process, which Verus does not look into.
#[verifier::external_body]
pub struct WeakProcess {
    target: Weak<ProcessControlBlock>,
}

/// A link to a process that does not keep the process alive.
pub struct ProcessLink {
    weak: WeakProcess,
    target: Ghost<Arc<ProcessControlBlock>>,
}

impl ProcessLink {
    /// The process that the link was made for, whether or not it is still
    /// there.
    pub closed spec fn target(&self) -> Arc<ProcessControlBlock> {
        self.target@
    }

    /// Link to `process`, by `std::sync::Arc::downgrade`: the link is to that
    /// process.
    ///
    /// That a link counts as no owner of the process is left unsaid here: the
    /// number of owners is no part of a value.
    #[verifier::external_body]
    pub(crate) fn new(process: &Arc<ProcessControlBlock>) -> (link: ProcessLink)
        ensures
            link.target() == *process,
    {
        ProcessLink {
            weak: WeakProcess { target: Arc::downgrade(process) },
            target: Ghost(*process),
        }
    }

    /// The process, by `std::sync::Weak::upgrade`: if there is one, it is the
    /// process that the link was made for.
    ///
    /// The call yields the process while it has an owner and nothing from then
    /// on. This is left unsaid here: it depends on who else owns the process.
    #[verifier::external_body]
    pub(crate) fn upgrade(&self) -> (process: Option<Arc<ProcessControlBlock>>)
        ensures
            process matches Some(process) ==> process == self.target(),
    {
        self.weak.target.upgrade()
    }
}

} // verus!
