//! `/proc/[pid]/exe`: the link to the file that a process executes.

use crate::error::SystemError;
use crate::process::pcb::ProcessControlBlock;
use crate::procfs::template::{
    overlaid, read_content, read_window, smaller, Common, Inode, ModeType, NodeRef, ProcSym,
};
use std::sync::Arc;
use vstd::prelude::*;

verus! {

/// The link to the file that `process_ref` executes.
pub struct ExeSymOps {
    pub process_ref: Arc<ProcessControlBlock>,
}

/// The bytes of the path that a process executes.
pub open spec fn path_bytes(process: &ProcessControlBlock) -> Seq<u8> {
    vstd::utf8::encode_utf8(process.execute_path@)
}

impl ExeSymOps {
    pub fn new(process_ref: Arc<ProcessControlBlock>) -> (ops: ExeSymOps)
        ensures
            ops.process_ref == process_ref,
    {
        ExeSymOps { process_ref }
    }

    /// The link of `process` under `parent`, open to everybody.
    pub open spec fn inode(process: Arc<ProcessControlBlock>, parent: NodeRef) -> Inode {
        Inode::Exe(
            ProcSym {
                inner: ExeSymOps { process_ref: process },
                common: Common { mode: ModeType { bits: 0o777 }, parent, is_volatile: false },
            },
        )
    }

    pub fn new_inode(process_ref: Arc<ProcessControlBlock>, parent: NodeRef) -> (child: Inode)
        ensures
            child == ExeSymOps::inode(process_ref, parent),
    {
        Inode::Exe(
            ProcSym {
                inner: ExeSymOps::new(process_ref),
                common: Common {
                    mode: ModeType { bits: ModeType::S_IRWXUGO },
                    parent,
                    is_volatile: false,
                },
            },
        )
    }

    /// Copy the path that `process` executes into `buf`, as far as there is
    /// space, and say how many bytes that is.
    pub fn copy_path(process: &ProcessControlBlock, buf: &mut [u8]) -> (copied: usize)
        ensures
            copied == smaller(path_bytes(process).len(), old(buf)@.len()),
            final(buf)@ == overlaid(old(buf)@, path_bytes(process).take(copied as int)),
    {
        let path = process.execute_path().as_str().as_bytes();
        let ghost before = buf@;
        let copied: usize = read_content(path, 0, path.len(), buf);
        proof {
            let window = read_window(path@, 0, path@.len(), before.len());
            assert(window =~= path_bytes(process).take(copied as int));
        }
        copied
    }

    /// Where the link leads: the path that its process executes.
    pub fn read_link(&self, buf: &mut [u8]) -> (result: Result<usize, SystemError>)
        ensures
            result matches Ok(copied) && {
                &&& copied == smaller(path_bytes(&*self.process_ref).len(), old(buf)@.len())
                &&& final(buf)@ == overlaid(
                    old(buf)@,
                    path_bytes(&*self.process_ref).take(copied as int),
                )
            },
    {
        Ok(ExeSymOps::copy_path(&self.process_ref, buf))
    }
}

} // verus!
