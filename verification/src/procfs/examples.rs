//! Sample nodes: a fixed file, a writable file, `/proc/self`, and a directory
//! of the three.

use crate::error::SystemError;
use crate::process::pcb::ProcessControlBlock;
use crate::procfs::template::{
    ensured, lookup_child_from_table, overlaid, populate_children_from_table, populated,
    read_content, read_window, smaller, Common, DirNode, EntryTable, Inode, ModeType, NodeRef,
    ProcDir, ProcFile, ProcSym,
};
use crate::text::{decimal, decimal_digits, law_decimal_injective};
use std::vec::Vec;
use vstd::prelude::*;

verus! {

/// A file with a fixed content.
pub struct ExampleFileOps {
    pub content: &'static str,
}

impl ExampleFileOps {
    /// The bytes of the file.
    pub open spec fn bytes(&self) -> Seq<u8> {
        vstd::utf8::encode_utf8(self.content@)
    }

    pub fn new(content: &'static str) -> (ops: ExampleFileOps)
        ensures
            ops.content@ == content@,
    {
        ExampleFileOps { content }
    }

    /// `child` is the sample file under `parent`, readable by everybody.
    pub open spec fn is_inode(child: Inode, parent: NodeRef) -> bool {
        child matches Inode::ExampleFile(file) && file.inner.content@
            == "Hello from ProcFS template system!\n"@ && file.common == (Common {
            mode: ModeType { bits: 0o444 },
            parent,
            is_volatile: false,
        })
    }

    pub fn new_inode(parent: NodeRef) -> (child: Inode)
        ensures
            ExampleFileOps::is_inode(child, parent),
    {
        Inode::ExampleFile(
            ProcFile {
                inner: ExampleFileOps::new("Hello from ProcFS template system!\n"),
                common: Common {
                    mode: ModeType { bits: ModeType::S_IRUGO },
                    parent,
                    is_volatile: false,
                },
            },
        )
    }

    /// Read up to `len` bytes at `offset` into `buf`.
    pub fn read_at(&self, offset: usize, len: usize, buf: &mut [u8]) -> (result: Result<
        usize,
        SystemError,
    >)
        ensures
            result matches Ok(copied) && copied == read_window(
                self.bytes(),
                offset as nat,
                len as nat,
                old(buf)@.len(),
            ).len(),
            final(buf)@ == overlaid(
                old(buf)@,
                read_window(self.bytes(), offset as nat, len as nat, old(buf)@.len()),
            ),
    {
        Ok(read_content(self.content.as_bytes(), offset, len, buf))
    }

    /// The file cannot be written.
    pub fn write_at(&self, _offset: usize, _len: usize, _buf: &[u8]) -> (result: Result<
        usize,
        SystemError,
    >)
        ensures
            result == Err::<usize, SystemError>(SystemError::EPERM),
    {
        Err(SystemError::EPERM)
    }
}

/// A file that keeps what is written to it.
pub struct WritableFileOps {
    data: Vec<u8>,
}

impl View for WritableFileOps {
    type V = Seq<u8>;

    closed spec fn view(&self) -> Seq<u8> {
        self.data@
    }
}

/// The content after a write of `len` bytes at `offset`, of which `buf` holds
/// the first ones. The file reaches to the end of the write, with zeros where
/// nothing was ever written.
pub open spec fn written(content: Seq<u8>, offset: nat, len: nat, buf: Seq<u8>) -> Seq<u8> {
    Seq::new(
        if offset + len > content.len() {
            offset + len
        } else {
            content.len()
        },
        |i: int|
            if offset <= i < offset + smaller(len, buf.len()) {
                buf[i - offset]
            } else if i < content.len() {
                content[i]
            } else {
                0
            },
    )
}

impl WritableFileOps {
    pub fn new() -> (ops: WritableFileOps)
        ensures
            ops@ == Seq::<u8>::empty(),
    {
        WritableFileOps { data: Vec::new() }
    }

    /// `child` is an empty writable file under `parent`, readable by everybody
    /// and writable by its owner.
    pub open spec fn is_inode(child: Inode, parent: NodeRef) -> bool {
        child matches Inode::WritableFile(file) && file.inner@ == Seq::<u8>::empty()
            && file.common == (Common {
            mode: ModeType { bits: 0o644 },
            parent,
            is_volatile: false,
        })
    }

    pub fn new_inode(parent: NodeRef) -> (child: Inode)
        ensures
            WritableFileOps::is_inode(child, parent),
    {
        assert(0o444u32 | 0o200u32 == 0o644u32) by (bit_vector);
        Inode::WritableFile(
            ProcFile {
                inner: WritableFileOps::new(),
                common: Common {
                    mode: ModeType { bits: ModeType::S_IRUGO | ModeType::S_IWUSR },
                    parent,
                    is_volatile: false,
                },
            },
        )
    }

    /// Read up to `len` bytes at `offset` into `buf`.
    pub fn read_at(&self, offset: usize, len: usize, buf: &mut [u8]) -> (result: Result<
        usize,
        SystemError,
    >)
        ensures
            result matches Ok(copied) && copied == read_window(
                self@,
                offset as nat,
                len as nat,
                old(buf)@.len(),
            ).len(),
            final(buf)@ == overlaid(
                old(buf)@,
                read_window(self@, offset as nat, len as nat, old(buf)@.len()),
            ),
    {
        Ok(read_content(self.data.as_slice(), offset, len, buf))
    }

    /// Write `len` bytes at `offset`, as far as `buf` holds them. The file
    /// grows to the end of the write even where `buf` falls short of it.
    pub fn write_at(&mut self, offset: usize, len: usize, buf: &[u8]) -> (result: Result<
        usize,
        SystemError,
    >)
        requires
            offset + len <= isize::MAX,
        ensures
            result matches Ok(copied) && copied == smaller(len as nat, buf@.len()),
            final(self)@ == written(old(self)@, offset as nat, len as nat, buf@),
    {
        let ghost before = self.data@;
        if offset + len > self.data.len() {
            self.data.resize(offset + len, 0);
        }
        let copy_len: usize = if len < buf.len() {
            len
        } else {
            buf.len()
        };
        let ghost grown = self.data@;
        let mut i: usize = 0;
        while i < copy_len
            invariant
                i <= copy_len,
                copy_len <= buf@.len(),
                offset + copy_len <= self.data@.len() <= usize::MAX,
                self.data@.len() == grown.len(),
                forall|j: int|
                    0 <= j < grown.len() ==> #[trigger] self.data@[j] == if offset <= j < offset + i {
                        buf@[j - offset]
                    } else {
                        grown[j]
                    },
            decreases copy_len - i,
        {
            self.data.set(offset + i, buf[i]);
            i += 1;
        }
        assert(self.data@ =~= written(before, offset as nat, len as nat, buf@));
        Ok(copy_len)
    }
}

/// A read at the place of a write gives back what was written.
pub proof fn law_read_gives_back_write(
    content: Seq<u8>,
    offset: nat,
    len: nat,
    buf: Seq<u8>,
    room: nat,
)
    requires
        room >= smaller(len, buf.len()),
    ensures
        read_window(
            written(content, offset, len, buf),
            offset,
            smaller(len, buf.len()),
            room,
        ) == buf.take(smaller(len, buf.len()) as int),
{
    let copied = smaller(len, buf.len());
    let after = written(content, offset, len, buf);
    assert(read_window(after, offset, copied, room) =~= buf.take(copied as int));
}

/// A write changes no byte outside its own place, never shortens the file, and
/// fills with zeros what lies between the former end and the write.
pub proof fn law_write_keeps_the_rest(
    content: Seq<u8>,
    offset: nat,
    len: nat,
    buf: Seq<u8>,
    i: int,
)
    requires
        0 <= i < offset || i >= offset + smaller(len, buf.len()),
    ensures
        written(content, offset, len, buf).len() >= content.len(),
        i < content.len() ==> written(content, offset, len, buf)[i] == content[i],
        content.len() <= i < written(content, offset, len, buf).len() ==> written(
            content,
            offset,
            len,
            buf,
        )[i] == 0,
{
}

/// The same write a second time changes nothing.
pub proof fn law_write_again_changes_nothing(
    content: Seq<u8>,
    offset: nat,
    len: nat,
    buf: Seq<u8>,
)
    ensures
        written(
            written(content, offset, len, buf),
            offset,
            len,
            buf,
        ) == written(content, offset, len, buf),
{
    let once = written(content, offset, len, buf);
    assert(written(once, offset, len, buf) =~= once);
}

/// The link `/proc/self`.
pub struct SelfSymOps;

impl SelfSymOps {
    /// `child` is the link under `parent`, open to everybody.
    pub open spec fn is_inode(child: Inode, parent: NodeRef) -> bool {
        child matches Inode::SelfSym(link) && link.common == (Common {
            mode: ModeType { bits: 0o777 },
            parent,
            is_volatile: false,
        })
    }

    pub fn new_inode(parent: NodeRef) -> (child: Inode)
        ensures
            SelfSymOps::is_inode(child, parent),
    {
        assert(0o444u32 | 0o222u32 | 0o111u32 == 0o777u32) by (bit_vector);
        Inode::SelfSym(
            ProcSym {
                inner: SelfSymOps,
                common: Common {
                    mode: ModeType {
                        bits: ModeType::S_IRUGO | ModeType::S_IWUGO | ModeType::S_IXUGO,
                    },
                    parent,
                    is_volatile: false,
                },
            },
        )
    }

    /// The link leads to the directory of the process that reads it.
    pub fn read_link(&self, current: &ProcessControlBlock) -> (result: Result<String, SystemError>)
        ensures
            result matches Ok(target) && target@ == decimal_digits(current.pid.data as nat),
    {
        Ok(decimal(current.pid.data))
    }
}

/// Processes of different numbers see different targets of `/proc/self`.
pub proof fn law_self_tells_processes_apart(a: ProcessControlBlock, b: ProcessControlBlock)
    requires
        a.pid != b.pid,
    ensures
        decimal_digits(a.pid.data as nat) != decimal_digits(b.pid.data as nat),
{
    if decimal_digits(a.pid.data as nat) == decimal_digits(b.pid.data as nat) {
        law_decimal_injective(a.pid.data as nat, b.pid.data as nat);
    }
}

/// A directory of the three.
pub struct ExampleDirOps;

impl EntryTable for ExampleDirOps {
    open spec fn names(&self) -> Seq<Seq<char>> {
        seq!["example_file"@, "writable_file"@, "self"@]
    }

    open spec fn makes(&self, name: Seq<char>, parent: NodeRef, child: Inode) -> bool {
        if name == "example_file"@ {
            ExampleFileOps::is_inode(child, parent)
        } else if name == "writable_file"@ {
            WritableFileOps::is_inode(child, parent)
        } else {
            name == "self"@ && SelfSymOps::is_inode(child, parent)
        }
    }

    fn len(&self) -> (len: usize) {
        3
    }

    fn name(&self, index: usize) -> (name: &'static str) {
        if index == 0 {
            "example_file"
        } else if index == 1 {
            "writable_file"
        } else {
            "self"
        }
    }

    fn construct(&self, index: usize, parent: NodeRef) -> (child: Inode) {
        proof {
            lemma_example_names_differ();
        }
        if index == 0 {
            ExampleFileOps::new_inode(parent)
        } else if index == 1 {
            WritableFileOps::new_inode(parent)
        } else {
            SelfSymOps::new_inode(parent)
        }
    }
}

pub(crate) proof fn lemma_example_names_differ()
    ensures
        "example_file"@ != "writable_file"@,
        "example_file"@ != "self"@,
        "writable_file"@ != "self"@,
{
    reveal_strlit("example_file");
    reveal_strlit("writable_file");
    reveal_strlit("self");
    assert("example_file"@.len() == 12);
    assert("writable_file"@.len() == 13);
    assert("self"@.len() == 4);
}

impl ExampleDirOps {
    /// A directory that everybody may read and search, without children yet.
    pub fn new_inode(parent: NodeRef, self_ref: NodeRef) -> (dir: ProcDir<ExampleDirOps>)
        ensures
            dir.node.wf(),
            dir.node.common == (Common {
                mode: ModeType { bits: 0o555 },
                parent,
                is_volatile: false,
            }),
            dir.node.self_ref == self_ref,
            dir.node.children() == Map::<Seq<char>, Inode>::empty(),
    {
        assert(0o444u32 | 0o111u32 == 0o555u32) by (bit_vector);
        ProcDir {
            inner: ExampleDirOps,
            node: DirNode::new(
                Common {
                    mode: ModeType { bits: ModeType::S_IRUGO | ModeType::S_IXUGO },
                    parent,
                    is_volatile: false,
                },
                self_ref,
            ),
        }
    }

    /// The child `name`, made on its first lookup.
    pub fn lookup_child<'a>(&self, dir: &'a mut DirNode, name: &str) -> (result: Result<
        &'a Inode,
        SystemError,
    >)
        requires
            old(dir).wf(),
        ensures
            final(dir).wf(),
            final(dir).same_place(old(dir)),
            match result {
                Ok(child) => self.names().contains(name@) && ensured(
                    *self,
                    old(dir).self_ref,
                    name@,
                    old(dir).children(),
                    final(dir).children(),
                ) && *child == final(dir).children()[name@],
                Err(error) => error == SystemError::ENOENT && !self.names().contains(name@)
                    && final(dir).children() == old(dir).children(),
            },
    {
        match lookup_child_from_table(self, dir, name) {
            Some(child) => Ok(child),
            None => Err(SystemError::ENOENT),
        }
    }

    /// Make every child that is not there yet, for a listing.
    pub fn populate_children(&self, dir: &mut DirNode)
        requires
            old(dir).wf(),
        ensures
            final(dir).wf(),
            final(dir).same_place(old(dir)),
            populated(*self, old(dir).self_ref, old(dir).children(), final(dir).children()),
    {
        populate_children_from_table(self, dir)
    }
}

} // verus!
