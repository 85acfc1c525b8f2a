//! Files, symbolic links and directories that share their framework.
//!
//! A directory knows the names of its static entries from a table. It makes a
//! child when the child is first asked for and keeps it from then on.

use crate::process::pcb::ProcessControlBlock;
use crate::procfs::cache::{same_name, ChildCache};
use crate::procfs::examples::{ExampleFileOps, SelfSymOps, WritableFileOps};
use crate::procfs::exe::ExeSymOps;
use crate::procfs::pid::{EmptyFileOps, EmptySymOps};
use std::sync::Arc;
use vstd::prelude::*;

verus! {

/// Names a node without keeping it alive.
#[derive(Clone, Copy, Debug, PartialEq, Eq, Structural)]
pub struct NodeRef {
    pub id: usize,
}

/// The permission bits of a node.
#[derive(Clone, Copy, Debug, PartialEq, Eq, Structural)]
pub struct ModeType {
    pub bits: u32,
}

impl ModeType {
    /// Everybody may read.
    pub const S_IRUGO: u32 = 0o444;

    /// The owner may write.
    pub const S_IWUSR: u32 = 0o200;

    /// Everybody may write.
    pub const S_IWUGO: u32 = 0o222;

    /// Everybody may execute, or search.
    pub const S_IXUGO: u32 = 0o111;

    /// Everybody may do everything.
    pub const S_IRWXUGO: u32 = 0o777;
}

/// What every node has.
#[derive(Clone, Copy, Debug, PartialEq, Eq, Structural)]
pub struct Common {
    pub mode: ModeType,
    pub parent: NodeRef,
    /// The node may change under its name and is not to be kept by others.
    pub is_volatile: bool,
}

/// A file.
pub struct ProcFile<F> {
    pub inner: F,
    pub common: Common,
}

/// A symbolic link.
pub struct ProcSym<S> {
    pub inner: S,
    pub common: Common,
}

/// A directory.
pub struct ProcDir<D> {
    pub inner: D,
    pub node: DirNode,
}

/// The part of a directory that does not depend on what it lists.
pub struct DirNode {
    pub common: Common,
    /// The directory itself, as its children name their parent.
    pub self_ref: NodeRef,
    pub cached_children: ChildCache<Inode>,
}

/// A child of a directory.
pub enum Inode {
    ExampleFile(ProcFile<ExampleFileOps>),
    WritableFile(ProcFile<WritableFileOps>),
    SelfSym(ProcSym<SelfSymOps>),
    EmptyFile(ProcFile<EmptyFileOps>),
    EmptySym(ProcSym<EmptySymOps>),
    Exe(ProcSym<ExeSymOps>),
    /// The status of a process.
    Status { process: Arc<ProcessControlBlock>, parent: NodeRef },
    /// The open files of a process.
    FdDir { process: Arc<ProcessControlBlock>, parent: NodeRef },
}

impl DirNode {
    /// The children by name.
    pub open spec fn children(&self) -> Map<Seq<char>, Inode> {
        self.cached_children@
    }

    /// The children are in order.
    pub open spec fn wf(&self) -> bool {
        self.cached_children.wf()
    }

    /// Only the children may differ.
    pub open spec fn same_place(&self, other: &DirNode) -> bool {
        self.common == other.common && self.self_ref == other.self_ref
    }

    /// A directory without children.
    pub fn new(common: Common, self_ref: NodeRef) -> (node: DirNode)
        ensures
            node.wf(),
            node.common == common,
            node.self_ref == self_ref,
            node.children() == Map::<Seq<char>, Inode>::empty(),
    {
        DirNode { common, self_ref, cached_children: ChildCache::new() }
    }
}

/// The bytes that a read of `len` bytes at `offset` hands out into a buffer
/// with space for `room` bytes: none at or past the end, and otherwise as many
/// as were asked for, are there and have space.
pub open spec fn read_window(content: Seq<u8>, offset: nat, len: nat, room: nat) -> Seq<u8> {
    if offset >= content.len() {
        Seq::empty()
    } else {
        let rest = content.skip(offset as int);
        rest.take(smaller(smaller(len, rest.len()), room) as int)
    }
}

/// The smaller of two numbers.
pub open spec fn smaller(a: nat, b: nat) -> nat {
    if a <= b {
        a
    } else {
        b
    }
}

/// `front` laid over the beginning of `buf`.
pub open spec fn overlaid(buf: Seq<u8>, front: Seq<u8>) -> Seq<u8> {
    front + buf.skip(front.len() as int)
}

/// Copy into `buf` what a read of `len` bytes at `offset` hands out, and say
/// how much that is.
pub fn read_content(content: &[u8], offset: usize, len: usize, buf: &mut [u8]) -> (copied: usize)
    ensures
        copied == read_window(content@, offset as nat, len as nat, old(buf)@.len()).len(),
        final(buf)@ == overlaid(
            old(buf)@,
            read_window(content@, offset as nat, len as nat, old(buf)@.len()),
        ),
{
    let ghost window = read_window(content@, offset as nat, len as nat, buf@.len());
    if offset >= content.len() {
        assert(overlaid(buf@, window) =~= buf@);
        return 0;
    }
    let remaining: usize = content.len() - offset;
    let mut copy_len: usize = if len < remaining {
        len
    } else {
        remaining
    };
    if buf.len() < copy_len {
        copy_len = buf.len();
    }
    let mut i: usize = 0;
    while i < copy_len
        invariant
            i <= copy_len,
            copy_len <= buf@.len(),
            offset + copy_len <= content@.len() <= usize::MAX,
            copy_len == window.len(),
            buf@.len() == old(buf)@.len(),
            window == content@.skip(offset as int).take(copy_len as int),
            forall|j: int| 0 <= j < i ==> buf@[j] == window[j],
            forall|j: int| i <= j < buf@.len() ==> buf@[j] == old(buf)@[j],
        decreases copy_len - i,
    {
        buf[i] = content[offset + i];
        i += 1;
    }
    assert(buf@ =~= overlaid(old(buf)@, window));
    copy_len
}

/// Reading on from where a read stopped continues the content: the two reads
/// hand out what one read over both lengths does.
pub proof fn law_reads_continue(content: Seq<u8>, offset: nat, first: nat, second: nat)
    ensures
        ({
            let head = read_window(content, offset, first, first);
            let tail = read_window(content, offset + head.len(), second, second);
            head + tail == read_window(content, offset, head.len() + second, head.len() + second)
        }),
{
    let head = read_window(content, offset, first, first);
    let tail = read_window(content, offset + head.len(), second, second);
    assert(head + tail =~= read_window(
        content,
        offset,
        head.len() + second,
        head.len() + second,
    ));
}

/// The static entries of a directory.
pub trait EntryTable {
    /// The names in the table.
    spec fn names(&self) -> Seq<Seq<char>>;

    /// `child` is what the entry `name` makes under `parent`.
    spec fn makes(&self, name: Seq<char>, parent: NodeRef, child: Inode) -> bool;

    /// The number of entries.
    fn len(&self) -> (len: usize)
        ensures
            len == self.names().len(),
    ;

    /// The name of an entry.
    fn name(&self, index: usize) -> (name: &'static str)
        requires
            index < self.names().len(),
        ensures
            name@ == self.names()[index as int],
    ;

    /// Make the child of an entry.
    fn construct(&self, index: usize, parent: NodeRef) -> (child: Inode)
        requires
            index < self.names().len(),
        ensures
            self.makes(self.names()[index as int], parent, child),
    ;
}

/// `after` is `before` once `name` was made sure of: what is there stays, and
/// a name that was missing has what its entry makes.
pub open spec fn ensured<T: EntryTable>(
    table: T,
    parent: NodeRef,
    name: Seq<char>,
    before: Map<Seq<char>, Inode>,
    after: Map<Seq<char>, Inode>,
) -> bool {
    if before.contains_key(name) {
        after == before
    } else {
        &&& after.contains_key(name)
        &&& table.makes(name, parent, after[name])
        &&& after == before.insert(name, after[name])
    }
}

/// `after` is `before` with every entry of the table made sure of.
pub open spec fn populated<T: EntryTable>(
    table: T,
    parent: NodeRef,
    before: Map<Seq<char>, Inode>,
    after: Map<Seq<char>, Inode>,
) -> bool {
    &&& forall|name: Seq<char>| #[trigger]
        after.contains_key(name) <==> before.contains_key(name) || table.names().contains(name)
    &&& forall|name: Seq<char>| #[trigger]
        before.contains_key(name) ==> after[name] == before[name]
    &&& forall|name: Seq<char>| #[trigger]
        after.contains_key(name) && !before.contains_key(name) ==> table.makes(
            name,
            parent,
            after[name],
        )
}

/// Look `name` up in the table. The child is made unless it is there already.
/// A name that is not in the table is not found, whatever the directory holds.
pub fn lookup_child_from_table<'a, T: EntryTable>(
    table: &T,
    node: &'a mut DirNode,
    name: &str,
) -> (child: Option<&'a Inode>)
    requires
        old(node).wf(),
    ensures
        final(node).wf(),
        final(node).same_place(old(node)),
        child is Some <==> table.names().contains(name@),
        child is None ==> final(node).children() == old(node).children(),
        child matches Some(child) ==> {
            &&& ensured(
                *table,
                old(node).self_ref,
                name@,
                old(node).children(),
                final(node).children(),
            )
            &&& *child == final(node).children()[name@]
        },
{
    let mut i: usize = 0;
    while i < table.len()
        invariant
            *node == *old(node),
            node.wf(),
            i <= table.names().len(),
            forall|j: int| 0 <= j < i ==> #[trigger] table.names()[j] != name@,
        decreases table.names().len() - i,
    {
        if same_name(table.name(i), name) {
            assert(table.names().contains(name@));
            if !node.cached_children.contains_key(name) {
                let child = table.construct(i, node.self_ref);
                node.cached_children.insert(name, child);
            }
            return node.cached_children.get(name);
        }
        i += 1;
    }
    None
}

proof fn lemma_take_one_more(names: Seq<Seq<char>>, i: int)
    requires
        0 <= i < names.len(),
    ensures
        forall|name: Seq<char>| #[trigger]
            names.take(i + 1).contains(name) <==> names.take(i).contains(name) || name == names[i],
{
    let fewer = names.take(i);
    let more = names.take(i + 1);
    assert forall|name: Seq<char>| #[trigger] more.contains(name) <==> fewer.contains(name) || name
        == names[i] by {
        if fewer.contains(name) {
            assert(more[fewer.index_of(name)] == name);
        }
        assert(more[i] == names[i]);
        if more.contains(name) {
            let k = more.index_of(name);
            assert(k < i ==> fewer[k] == name);
        }
    }
}

/// Make every child of the table that is not there yet.
pub fn populate_children_from_table<T: EntryTable>(table: &T, node: &mut DirNode)
    requires
        old(node).wf(),
    ensures
        final(node).wf(),
        final(node).same_place(old(node)),
        populated(*table, old(node).self_ref, old(node).children(), final(node).children()),
{
    let ghost before = node.children();
    let mut i: usize = 0;
    while i < table.len()
        invariant
            node.wf(),
            node.same_place(old(node)),
            before == old(node).children(),
            i <= table.names().len(),
            forall|name: Seq<char>| #[trigger]
                node.children().contains_key(name) <==> before.contains_key(name)
                    || table.names().take(i as int).contains(name),
            forall|name: Seq<char>| #[trigger]
                before.contains_key(name) ==> node.children()[name] == before[name],
            forall|name: Seq<char>| #[trigger]
                node.children().contains_key(name) && !before.contains_key(name) ==> table.makes(
                    name,
                    old(node).self_ref,
                    node.children()[name],
                ),
        decreases table.names().len() - i,
    {
        let name = table.name(i);
        let ghost mid = node.children();
        if !node.cached_children.contains_key(name) {
            let child = table.construct(i, node.self_ref);
            node.cached_children.insert(name, child);
        }
        proof {
            lemma_take_one_more(table.names(), i as int);
            assert forall|other: Seq<char>|
                node.children().contains_key(other) <==> before.contains_key(other)
                    || #[trigger] table.names().take(i + 1).contains(other) by {
                assert(mid.contains_key(other) <==> before.contains_key(other)
                    || table.names().take(i as int).contains(other));
            }
            assert forall|other: Seq<char>| #[trigger]
                node.children().contains_key(other) && !before.contains_key(
                    other,
                ) implies table.makes(other, old(node).self_ref, node.children()[other]) by {
                assert(mid.contains_key(other) || other == name@);
            }
        }
        i += 1;
    }
    assert(table.names().take(i as int) =~= table.names());
}

/// A name that was looked up stays as it is: looking it up again changes
/// nothing.
pub proof fn law_lookup_is_stable<T: EntryTable>(
    table: T,
    parent: NodeRef,
    name: Seq<char>,
    first: Map<Seq<char>, Inode>,
    second: Map<Seq<char>, Inode>,
    third: Map<Seq<char>, Inode>,
)
    requires
        ensured(table, parent, name, first, second),
        ensured(table, parent, name, second, third),
    ensures
        third == second,
        second.contains_key(name),
{
}

/// Looking one name up leaves every other child alone.
pub proof fn law_lookup_keeps_others<T: EntryTable>(
    table: T,
    parent: NodeRef,
    name: Seq<char>,
    other: Seq<char>,
    before: Map<Seq<char>, Inode>,
    after: Map<Seq<char>, Inode>,
)
    requires
        ensured(table, parent, name, before, after),
        other != name || before.contains_key(name),
    ensures
        after.contains_key(other) == before.contains_key(other),
        before.contains_key(other) ==> after[other] == before[other],
{
}

/// After a listing every entry of the table is there, so that neither another
/// listing nor a lookup makes a child again.
pub proof fn law_listing_is_complete<T: EntryTable>(
    table: T,
    parent: NodeRef,
    name: Seq<char>,
    first: Map<Seq<char>, Inode>,
    second: Map<Seq<char>, Inode>,
    third: Map<Seq<char>, Inode>,
)
    requires
        populated(table, parent, first, second),
    ensures
        populated(table, parent, second, third) ==> third == second,
        table.names().contains(name) ==> second.contains_key(name) && (ensured(
            table,
            parent,
            name,
            second,
            third,
        ) ==> third == second),
{
    if populated(table, parent, second, third) {
        assert(third =~= second);
    }
}

} // verus!
