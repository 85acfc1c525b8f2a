//! `/proc/[pid]`: the directory of a process.

use crate::error::SystemError;
use crate::process::pcb::{ProcessControlBlock, ProcessLink, RawPid};
use crate::procfs::cache::same_name;
use crate::procfs::exe::ExeSymOps;
use crate::procfs::template::{
    ensured, lookup_child_from_table, populate_children_from_table, populated, Common, DirNode,
    EntryTable, Inode, ModeType, NodeRef, ProcDir, ProcFile, ProcSym,
};
use std::sync::Arc;
use vstd::prelude::*;

verus! {

/// The status file of a process that has exited.
pub struct EmptyFileOps;

impl EmptyFileOps {
    /// The file is empty.
    pub fn read_at(&self, _offset: usize, _len: usize, buf: &mut [u8]) -> (result: Result<
        usize,
        SystemError,
    >)
        ensures
            result == Ok::<usize, SystemError>(0),
            final(buf)@ == old(buf)@,
    {
        let _ = buf;
        Ok(0)
    }

    /// The file cannot be written.
    pub fn write_at(&self, _offset: usize, _len: usize, _buf: &[u8]) -> (result: Result<
        usize,
        SystemError,
    >)
        ensures
            result == Err::<usize, SystemError>(SystemError::EPERM),
    {
        Err(SystemError::EPERM)
    }
}

/// The `exe` link of a process that has exited.
pub struct EmptySymOps;

impl EmptySymOps {
    /// The link leads nowhere.
    pub fn read_link(&self, buf: &mut [u8]) -> (result: Result<usize, SystemError>)
        ensures
            result == Ok::<usize, SystemError>(0),
            final(buf)@ == old(buf)@,
    {
        let _ = buf;
        Ok(0)
    }
}

/// The directory of one process. Its link does not keep the process alive; the
/// children that were made while the process was there do.
pub struct PidDirOps {
    process_ref: ProcessLink,
    pid: RawPid,
}

/// The static entries of the directory of a process, told whether the process
/// is still there.
pub struct PidEntries {
    pub process: Option<Arc<ProcessControlBlock>>,
}

/// The status file of `process`, or the empty file once it has exited.
pub open spec fn status_inode(
    process: Option<Arc<ProcessControlBlock>>,
    parent: NodeRef,
) -> Inode {
    match process {
        Some(process) => Inode::Status { process, parent },
        None => Inode::EmptyFile(
            ProcFile {
                inner: EmptyFileOps,
                common: Common { mode: ModeType { bits: 0o444 }, parent, is_volatile: false },
            },
        ),
    }
}

/// The link to what `process` executes, or the empty link once it has exited.
pub open spec fn exe_inode(process: Option<Arc<ProcessControlBlock>>, parent: NodeRef) -> Inode {
    match process {
        Some(process) => ExeSymOps::inode(process, parent),
        None => Inode::EmptySym(
            ProcSym {
                inner: EmptySymOps,
                common: Common { mode: ModeType { bits: 0o777 }, parent, is_volatile: false },
            },
        ),
    }
}

/// The directory of the open files of `process`.
pub open spec fn fd_inode(process: Arc<ProcessControlBlock>, parent: NodeRef) -> Inode {
    Inode::FdDir { process, parent }
}

pub(crate) proof fn lemma_pid_names_differ()
    ensures
        "status"@ != "exe"@,
        "status"@ != "fd"@,
        "exe"@ != "fd"@,
{
    reveal_strlit("status");
    reveal_strlit("exe");
    reveal_strlit("fd");
    assert("status"@.len() == 6);
    assert("exe"@.len() == 3);
    assert("fd"@.len() == 2);
}

impl EntryTable for PidEntries {
    open spec fn names(&self) -> Seq<Seq<char>> {
        seq!["status"@, "exe"@]
    }

    open spec fn makes(&self, name: Seq<char>, parent: NodeRef, child: Inode) -> bool {
        if name == "status"@ {
            child == status_inode(self.process, parent)
        } else {
            name == "exe"@ && child == exe_inode(self.process, parent)
        }
    }

    fn len(&self) -> (len: usize) {
        2
    }

    fn name(&self, index: usize) -> (name: &'static str) {
        if index == 0 {
            "status"
        } else {
            "exe"
        }
    }

    fn construct(&self, index: usize, parent: NodeRef) -> (child: Inode) {
        proof {
            lemma_pid_names_differ();
        }
        if index == 0 {
            match &self.process {
                Some(process) => Inode::Status { process: process.clone(), parent },
                None => Inode::EmptyFile(
                    ProcFile {
                        inner: EmptyFileOps,
                        common: Common {
                            mode: ModeType { bits: ModeType::S_IRUGO },
                            parent,
                            is_volatile: false,
                        },
                    },
                ),
            }
        } else {
            match &self.process {
                Some(process) => ExeSymOps::new_inode(process.clone(), parent),
                None => Inode::EmptySym(
                    ProcSym {
                        inner: EmptySymOps,
                        common: Common {
                            mode: ModeType { bits: ModeType::S_IRWXUGO },
                            parent,
                            is_volatile: false,
                        },
                    },
                ),
            }
        }
    }
}

/// What a lookup of `name` finds in the directory of a process that holds
/// `before`, and what the directory holds then. `process` is what the link to
/// the process led to.
pub open spec fn pid_lookup(
    process: Option<Arc<ProcessControlBlock>>,
    self_ref: NodeRef,
    name: Seq<char>,
    before: Map<Seq<char>, Inode>,
    after: Map<Seq<char>, Inode>,
    result: Result<Inode, SystemError>,
) -> bool {
    let entries = PidEntries { process };
    match result {
        Ok(child) => {
            &&& after.contains_key(name)
            &&& child == after[name]
            &&& if name == "fd"@ {
                if before.contains_key(name) {
                    after == before
                } else {
                    process is Some && after == before.insert(name, fd_inode(process->0, self_ref))
                }
            } else {
                entries.names().contains(name) && ensured(entries, self_ref, name, before, after)
            }
        },
        Err(error) => {
            &&& after == before
            &&& if name == "fd"@ {
                error == SystemError::ESRCH && process is None && !before.contains_key(name)
            } else {
                error == SystemError::ENOENT && !entries.names().contains(name)
            }
        },
    }
}

/// `after` is `before` with every child that the directory of a process can
/// have: the static ones, and the open files where the link to the process led
/// to `process`.
pub open spec fn pid_populated(
    process: Option<Arc<ProcessControlBlock>>,
    self_ref: NodeRef,
    before: Map<Seq<char>, Inode>,
    after: Map<Seq<char>, Inode>,
) -> bool {
    let fd_made = !before.contains_key("fd"@) && process is Some;
    &&& populated(
        PidEntries { process },
        self_ref,
        before,
        if fd_made {
            after.remove("fd"@)
        } else {
            after
        },
    )
    &&& fd_made ==> after.contains_key("fd"@) && after["fd"@] == fd_inode(process->0, self_ref)
}

impl PidDirOps {
    /// The process that the directory was made for, whether or not it is still
    /// there.
    pub closed spec fn linked(&self) -> Arc<ProcessControlBlock> {
        self.process_ref.target()
    }

    /// The link to the process may lead to `process`: to the process that the
    /// directory was made for, or nowhere.
    pub open spec fn may_find(&self, process: Option<Arc<ProcessControlBlock>>) -> bool {
        process is None || process == Some(self.linked())
    }

    /// The number of the process, also once it has exited.
    pub closed spec fn number(&self) -> RawPid {
        self.pid
    }

    /// The directory of `process_ref`, which everybody may read and search. It
    /// is volatile, for it goes with its process. Without children it is no
    /// owner of the process.
    pub fn new_inode(
        process_ref: Arc<ProcessControlBlock>,
        parent: NodeRef,
        self_ref: NodeRef,
    ) -> (dir: ProcDir<PidDirOps>)
        ensures
            dir.inner.linked() == process_ref,
            dir.inner.number() == process_ref.pid,
            dir.node.wf(),
            dir.node.common == (Common {
                mode: ModeType { bits: 0o555 },
                parent,
                is_volatile: true,
            }),
            dir.node.self_ref == self_ref,
            dir.node.children() == Map::<Seq<char>, Inode>::empty(),
    {
        let pid = process_ref.raw_pid();
        ProcDir {
            inner: PidDirOps { process_ref: ProcessLink::new(&process_ref), pid },
            node: DirNode::new(
                Common { mode: ModeType { bits: 0o555 }, parent, is_volatile: true },
                self_ref,
            ),
        }
    }

    /// The process, unless it has exited. Whether it has is known only by
    /// asking, and may be answered otherwise the next time.
    pub fn get_process(&self) -> (process: Option<Arc<ProcessControlBlock>>)
        ensures
            self.may_find(process),
    {
        self.process_ref.upgrade()
    }

    pub fn pid(&self) -> (pid: RawPid)
        ensures
            pid == self.number(),
    {
        self.pid
    }

    /// The child `name`, made on its first lookup. What is made depends on
    /// whether the process has exited.
    pub fn lookup_child<'a>(&self, dir: &'a mut DirNode, name: &str) -> (result: Result<
        &'a Inode,
        SystemError,
    >)
        requires
            old(dir).wf(),
        ensures
            final(dir).wf(),
            final(dir).same_place(old(dir)),
            exists|process: Option<Arc<ProcessControlBlock>>|
                self.may_find(process) && #[trigger] pid_lookup(
                    process,
                    old(dir).self_ref,
                    name@,
                    old(dir).children(),
                    final(dir).children(),
                    owned(result),
                ),
    {
        let process = self.get_process();
        PidDirOps::lookup_child_with(process, dir, name)
    }

    /// The child `name`, made on its first lookup, where the link to the
    /// process led to `process`.
    pub fn lookup_child_with<'a>(
        process: Option<Arc<ProcessControlBlock>>,
        dir: &'a mut DirNode,
        name: &str,
    ) -> (result: Result<&'a Inode, SystemError>)
        requires
            old(dir).wf(),
        ensures
            final(dir).wf(),
            final(dir).same_place(old(dir)),
            pid_lookup(
                process,
                old(dir).self_ref,
                name@,
                old(dir).children(),
                final(dir).children(),
                owned(result),
            ),
    {
        if same_name(name, "fd") {
            if !dir.cached_children.contains_key(name) {
                match process {
                    Some(process) => {
                        let inode = Inode::FdDir { process, parent: dir.self_ref };
                        dir.cached_children.insert(name, inode);
                    },
                    None => {
                        return Err(SystemError::ESRCH);
                    },
                }
            }
            return match dir.cached_children.get(name) {
                Some(child) => Ok(child),
                None => Err(SystemError::ENOENT),
            };
        }
        match lookup_child_from_table(&PidEntries { process }, dir, name) {
            Some(child) => Ok(child),
            None => Err(SystemError::ENOENT),
        }
    }

    /// Make every child that is not there yet, for a listing. What is made
    /// depends on whether the process has exited: it is asked for once, and
    /// cannot go away while the children are made.
    pub fn populate_children(&self, dir: &mut DirNode)
        requires
            old(dir).wf(),
        ensures
            final(dir).wf(),
            final(dir).same_place(old(dir)),
            exists|process: Option<Arc<ProcessControlBlock>>|
                self.may_find(process) && #[trigger] pid_populated(
                    process,
                    old(dir).self_ref,
                    old(dir).children(),
                    final(dir).children(),
                ),
    {
        let process = self.get_process();
        PidDirOps::populate_children_with(process, dir)
    }

    /// Make every child that is not there yet, for a listing, where the link
    /// to the process led to `process`.
    pub fn populate_children_with(process: Option<Arc<ProcessControlBlock>>, dir: &mut DirNode)
        requires
            old(dir).wf(),
        ensures
            final(dir).wf(),
            final(dir).same_place(old(dir)),
            pid_populated(process, old(dir).self_ref, old(dir).children(), final(dir).children()),
    {
        proof {
            lemma_pid_names_differ();
        }
        let entries = PidEntries { process };
        populate_children_from_table(&entries, dir);
        let ghost filled = dir.children();
        if !dir.cached_children.contains_key("fd") {
            if let Some(process) = entries.process {
                let fd_inode = Inode::FdDir { process, parent: dir.self_ref };
                dir.cached_children.insert("fd", fd_inode);
                assert(dir.children().remove("fd"@) =~= filled);
            }
        }
    }
}

/// The result of a lookup with the child itself in place of the reference.
pub open spec fn owned(result: Result<&Inode, SystemError>) -> Result<Inode, SystemError> {
    match result {
        Ok(child) => Ok(*child),
        Err(error) => Err(error),
    }
}

/// What a lookup has found stays: a later lookup finds the same child and
/// changes nothing, even if the process has exited in between.
pub proof fn law_found_child_stays(
    process: Option<Arc<ProcessControlBlock>>,
    later: Option<Arc<ProcessControlBlock>>,
    self_ref: NodeRef,
    name: Seq<char>,
    first: Map<Seq<char>, Inode>,
    second: Map<Seq<char>, Inode>,
    third: Map<Seq<char>, Inode>,
    child: Inode,
    again: Result<Inode, SystemError>,
)
    requires
        pid_lookup(process, self_ref, name, first, second, Ok(child)),
        pid_lookup(later, self_ref, name, second, third, again),
    ensures
        again == Ok::<Inode, SystemError>(child),
        third == second,
{
}

/// Once the process has exited its open files are gone unless they were looked
/// up before: a lookup says that there is no such process, and a listing does
/// not show them. What is made of the static entries then is empty.
pub proof fn law_exited_process_leaves_placeholders(
    self_ref: NodeRef,
    before: Map<Seq<char>, Inode>,
    after: Map<Seq<char>, Inode>,
    listed: Map<Seq<char>, Inode>,
    result: Result<Inode, SystemError>,
)
    requires
        !before.contains_key("fd"@),
        pid_lookup(None, self_ref, "fd"@, before, after, result),
        pid_populated(None, self_ref, before, listed),
    ensures
        result == Err::<Inode, SystemError>(SystemError::ESRCH),
        after == before,
        !listed.contains_key("fd"@),
        !before.contains_key("status"@) ==> listed["status"@] is EmptyFile,
        !before.contains_key("exe"@) ==> listed["exe"@] is EmptySym,
{
    lemma_pid_names_differ();
    let entries = PidEntries { process: None };
    assert(entries.names()[0] == "status"@);
    assert(entries.names()[1] == "exe"@);
    assert(listed.contains_key("status"@));
    assert(listed.contains_key("exe"@));
}

/// Only the open files depend on the process being there: whether a lookup of
/// any other name succeeds is the same for a process that has exited.
pub proof fn law_exit_decides_only_fd(
    process: Option<Arc<ProcessControlBlock>>,
    other: Option<Arc<ProcessControlBlock>>,
    self_ref: NodeRef,
    name: Seq<char>,
    before: Map<Seq<char>, Inode>,
    after: Map<Seq<char>, Inode>,
    after_other: Map<Seq<char>, Inode>,
    result: Result<Inode, SystemError>,
    result_other: Result<Inode, SystemError>,
)
    requires
        name != "fd"@ || before.contains_key(name),
        pid_lookup(process, self_ref, name, before, after, result),
        pid_lookup(other, self_ref, name, before, after_other, result_other),
    ensures
        result is Ok <==> result_other is Ok,
        before.contains_key(name) ==> result == result_other && after == after_other,
        result is Err ==> result == result_other,
{
    assert(PidEntries { process }.names() =~= PidEntries { process: other }.names());
}

/// After a listing the static children are there, and so are the open files
/// unless the process had exited. Neither another listing nor a lookup of one
/// of them changes anything, even if the process has exited in between. (A
/// process that has exited does not come back.)
pub proof fn law_pid_listing_is_complete(
    process: Option<Arc<ProcessControlBlock>>,
    later: Option<Arc<ProcessControlBlock>>,
    self_ref: NodeRef,
    name: Seq<char>,
    first: Map<Seq<char>, Inode>,
    second: Map<Seq<char>, Inode>,
    third: Map<Seq<char>, Inode>,
    fourth: Map<Seq<char>, Inode>,
    result: Result<Inode, SystemError>,
)
    requires
        process is None ==> later is None,
        pid_populated(process, self_ref, first, second),
        pid_populated(later, self_ref, second, third),
        pid_lookup(later, self_ref, name, second, fourth, result),
    ensures
        second.contains_key("status"@) && second.contains_key("exe"@),
        process is Some ==> second.contains_key("fd"@),
        third == second,
        fourth == second,
        name == "status"@ || name == "exe"@ || (name == "fd"@ && second.contains_key(name))
            ==> result == Ok::<Inode, SystemError>(second[name]),
{
    lemma_pid_names_differ();
    let entries = PidEntries { process };
    assert(entries.names()[0] == "status"@);
    assert(entries.names()[1] == "exe"@);
    assert(PidEntries { process: later }.names() =~= entries.names());
    let rest = if !first.contains_key("fd"@) && process is Some {
        second.remove("fd"@)
    } else {
        second
    };
    assert(rest.contains_key("status"@));
    assert(rest.contains_key("exe"@));
    assert(third =~= second);
}

/// Every other name is refused, whatever the directory holds.
pub proof fn law_unknown_name_is_refused(
    process: Option<Arc<ProcessControlBlock>>,
    self_ref: NodeRef,
    name: Seq<char>,
    before: Map<Seq<char>, Inode>,
    after: Map<Seq<char>, Inode>,
    result: Result<Inode, SystemError>,
)
    requires
        name != "fd"@ && name != "status"@ && name != "exe"@,
        pid_lookup(process, self_ref, name, before, after, result),
    ensures
        result == Err::<Inode, SystemError>(SystemError::ENOENT),
        after == before,
{
}

} // verus!
