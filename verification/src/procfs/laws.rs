//! What the nodes of `/proc` promise to their callers, said of the calls
//! themselves.

use crate::error::SystemError;
use crate::process::pcb::{ProcessControlBlock, RawPid};
use crate::procfs::cache::{
    bytes_before, name_bytes, name_order, same_name, ChildCache, NameOrder,
};
use crate::procfs::examples::{
    lemma_example_names_differ, ExampleDirOps, ExampleFileOps, SelfSymOps, WritableFileOps,
};
use crate::procfs::exe::ExeSymOps;
use crate::procfs::pid::{
    lemma_pid_names_differ, EmptyFileOps, EmptySymOps, PidDirOps, PidEntries,
};
use crate::procfs::template::{read_content, Common, DirNode, EntryTable, Inode, NodeRef, ProcDir};
use crate::text::{decimal, digits_value, is_digit, law_decimal_reads_back};
use std::sync::Arc;
use std::vec::Vec;
use vstd::prelude::*;

verus! {

proof fn lemma_smaller_byte_first(x: Seq<u8>, y: Seq<u8>, k: int)
    requires
        0 <= k < x.len(),
        k < y.len(),
        x.take(k) == y.take(k),
        x[k] < y[k],
    ensures
        bytes_before(x, y),
        !bytes_before(y, x),
    decreases k,
{
    if k > 0 {
        assert(x.take(k)[0] == x[0] && y.take(k)[0] == y[0]);
        assert(x.drop_first().take(k - 1) =~= x.take(k).drop_first());
        assert(y.drop_first().take(k - 1) =~= y.take(k).drop_first());
        lemma_smaller_byte_first(x.drop_first(), y.drop_first(), k - 1);
    }
}

proof fn lemma_front_first(x: Seq<u8>, y: Seq<u8>)
    requires
        x.len() < y.len(),
        y.take(x.len() as int) == x,
    ensures
        bytes_before(x, y),
        !bytes_before(y, x),
    decreases x.len(),
{
    if x.len() > 0 {
        assert(y.take(x.len() as int)[0] == x[0]);
        assert(y.drop_first().take(x.len() - 1) =~= y.take(x.len() as int).drop_first());
        lemma_front_first(x.drop_first(), y.drop_first());
    }
}

/// Names are ordered by the first byte in which they differ, and a name that
/// ends there comes first. Names that agree in all are the same.
pub proof fn law_names_are_ordered_by_the_first_difference(
    a: &str,
    b: &str,
    k: int,
    order: NameOrder,
    same: bool,
)
    requires
        call_ensures(name_order, (a, b), order),
        call_ensures(same_name, (a, b), same),
        0 <= k <= name_bytes(a@).len(),
        k <= name_bytes(b@).len(),
        name_bytes(a@).take(k) == name_bytes(b@).take(k),
    ensures
        same <==> a@ == b@,
        order is Same <==> a@ == b@,
        k < name_bytes(a@).len() && k < name_bytes(b@).len() ==> {
            &&& name_bytes(a@)[k] < name_bytes(b@)[k] ==> order is Before
            &&& name_bytes(a@)[k] > name_bytes(b@)[k] ==> order is After
        },
        k == name_bytes(a@).len() < name_bytes(b@).len() ==> order is Before,
        k == name_bytes(b@).len() < name_bytes(a@).len() ==> order is After,
{
    let x = name_bytes(a@);
    let y = name_bytes(b@);
    if k < x.len() && k < y.len() {
        if x[k] < y[k] {
            lemma_smaller_byte_first(x, y, k);
        } else if y[k] < x[k] {
            lemma_smaller_byte_first(y, x, k);
        }
    } else if k == x.len() && x.len() < y.len() {
        assert(x.take(k) =~= x);
        lemma_front_first(x, y);
    } else if k == y.len() && y.len() < x.len() {
        assert(y.take(k) =~= y);
        lemma_front_first(y, x);
    }
}

/// The bytes of a name are its text: different names have different bytes.
pub proof fn law_name_bytes_are_the_name(a: Seq<char>, b: Seq<char>)
    requires
        name_bytes(a) == name_bytes(b),
    ensures
        a == b,
{
    vstd::utf8::encode_utf8_decode_utf8(a);
    vstd::utf8::encode_utf8_decode_utf8(b);
}

/// A child that was taken in is found under its name. What is found under any
/// other name is what was found before.
pub proof fn law_cache_finds_what_was_taken_in<T>(
    cache: &mut ChildCache<T>,
    name: &str,
    child: T,
    unit: (),
    found: Option<&T>,
    other: &str,
    before: Option<&T>,
    after: Option<&T>,
    known: bool,
)
    requires
        old(cache).wf(),
        call_ensures(ChildCache::<T>::contains_key, (&*old(cache), name), false),
        call_ensures(ChildCache::<T>::insert, (cache, name, child), unit),
        call_ensures(ChildCache::<T>::get, (&*final(cache), name), found),
        call_ensures(ChildCache::<T>::get, (&*old(cache), other), before),
        call_ensures(ChildCache::<T>::get, (&*final(cache), other), after),
        call_ensures(ChildCache::<T>::contains_key, (&*final(cache), other), known),
    ensures
        found == Some(&child),
        other@ != name@ ==> after == before,
        known <==> after is Some,
{
}

/// A new cache has no child under any name.
pub proof fn law_new_cache_is_empty<T>(
    cache: ChildCache<T>,
    name: &str,
    found: Option<&T>,
    names: Vec<String>,
)
    requires
        call_ensures(ChildCache::<T>::new, (), cache),
        call_ensures(ChildCache::<T>::get, (&cache, name), found),
        call_ensures(ChildCache::<T>::names, (&cache,), names),
    ensures
        found is None,
        names@.len() == 0,
{
    cache.law_listing_is_exact();
    if cache.listing().len() > 0 {
        assert(cache.listing().contains(cache.listing()[0]));
        assert(!cache@.contains_key(cache.listing()[0]));
    }
}

/// A child that was changed in place is found changed; every other child is
/// found as it was, and the names stay.
pub proof fn law_cache_finds_what_was_changed<T>(
    cache: &mut ChildCache<T>,
    name: &str,
    child: &mut T,
    before: Option<&T>,
    found: Option<&T>,
    other: &str,
    other_before: Option<&T>,
    other_after: Option<&T>,
)
    requires
        old(cache).wf(),
        call_ensures(ChildCache::<T>::get, (&*old(cache), name), before),
        call_ensures(ChildCache::<T>::get_mut, (cache, name), Some(child)),
        call_ensures(ChildCache::<T>::get, (&*final(cache), name), found),
        call_ensures(ChildCache::<T>::get, (&*old(cache), other), other_before),
        call_ensures(ChildCache::<T>::get, (&*final(cache), other), other_after),
    ensures
        before == Some(&*old(child)),
        found == Some(&*final(child)),
        other@ != name@ ==> other_after == other_before,
{
}

/// A listing shows each child once and nothing else, in the order of the bytes
/// of their names.
pub proof fn law_listing_is_sorted_and_exact<T>(
    cache: ChildCache<T>,
    names: Vec<String>,
    name: &str,
    known: bool,
    i: int,
    j: int,
    order: NameOrder,
)
    requires
        cache.wf(),
        call_ensures(ChildCache::<T>::names, (&cache,), names),
        call_ensures(ChildCache::<T>::contains_key, (&cache, name), known),
        0 <= i < j < names@.len(),
    ensures
        names@[i]@ != names@[j]@,
        bytes_before(name_bytes(names@[i]@), name_bytes(names@[j]@)),
        known <==> exists|k: int| 0 <= k < names@.len() && (#[trigger] names@[k])@ == name@,
{
    cache.law_listing_is_exact();
    assert(names@[i]@ == cache.listing()[i]);
    assert(names@[j]@ == cache.listing()[j]);
    if known {
        let k = cache.listing().index_of(name@);
        assert(names@[k]@ == name@);
    }
    if exists|k: int| 0 <= k < names@.len() && (#[trigger] names@[k])@ == name@ {
        let k = choose|k: int| 0 <= k < names@.len() && (#[trigger] names@[k])@ == name@;
        assert(cache.listing()[k] == name@);
    }
}

/// `copied` bytes of `content` from `offset` on are at the beginning of `after`
/// and the rest is as in `before`; fewer than `len` bytes come only where the
/// content or the space ends.
pub open spec fn handed_out(
    content: Seq<u8>,
    offset: int,
    len: int,
    before: Seq<u8>,
    after: Seq<u8>,
    copied: int,
) -> bool {
    &&& 0 <= copied <= len
    &&& copied <= before.len() == after.len()
    &&& copied > 0 ==> offset + copied <= content.len()
    &&& forall|i: int| 0 <= i < copied ==> #[trigger] after[i] == content[offset + i]
    &&& forall|i: int| copied <= i < before.len() ==> #[trigger] after[i] == before[i]
    &&& copied < len && copied < before.len() ==> offset + copied >= content.len()
}

/// A read hands out the content from its place on, leaves the rest of the buffer
/// alone, and is short only where the content or the buffer ends. Both files
/// read so, the fixed one the bytes of its text.
pub proof fn law_reads_are_short_only_at_an_end(
    content: &[u8],
    offset: usize,
    len: usize,
    buf: &mut [u8],
    copied: usize,
    fixed: ExampleFileOps,
    fixed_buf: &mut [u8],
    fixed_result: Result<usize, SystemError>,
    file: WritableFileOps,
    file_buf: &mut [u8],
    file_result: Result<usize, SystemError>,
)
    requires
        call_ensures(read_content, (content, offset, len, buf), copied),
        call_ensures(ExampleFileOps::read_at, (&fixed, offset, len, fixed_buf), fixed_result),
        call_ensures(WritableFileOps::read_at, (&file, offset, len, file_buf), file_result),
    ensures
        handed_out(
            content@,
            offset as int,
            len as int,
            old(buf)@,
            final(buf)@,
            copied as int,
        ),
        fixed_result matches Ok(copied) && handed_out(
            vstd::utf8::encode_utf8(fixed.content@),
            offset as int,
            len as int,
            old(fixed_buf)@,
            final(fixed_buf)@,
            copied as int,
        ),
        file_result matches Ok(copied) && handed_out(
            file@,
            offset as int,
            len as int,
            old(file_buf)@,
            final(file_buf)@,
            copied as int,
        ),
{
}

/// A fixed file holds the text that it was made with and cannot be written.
pub proof fn law_fixed_file_is_its_text(
    content: &'static str,
    file: ExampleFileOps,
    offset: usize,
    len: usize,
    buf: &[u8],
    result: Result<usize, SystemError>,
)
    requires
        call_ensures(ExampleFileOps::new, (content,), file),
        call_ensures(ExampleFileOps::write_at, (&file, offset, len, buf), result),
    ensures
        file.content@ == content@,
        result == Err::<usize, SystemError>(SystemError::EPERM),
{
}

/// A new writable file is empty.
pub proof fn law_new_file_is_empty(
    file: WritableFileOps,
    offset: usize,
    len: usize,
    buf: &mut [u8],
    result: Result<usize, SystemError>,
)
    requires
        call_ensures(WritableFileOps::new, (), file),
        call_ensures(WritableFileOps::read_at, (&file, offset, len, buf), result),
    ensures
        result == Ok::<usize, SystemError>(0),
        final(buf)@ == old(buf)@,
{
    assert(crate::procfs::template::overlaid(old(buf)@, Seq::<u8>::empty()) =~= old(buf)@);
}

/// What was written is read back from its place, as far as it was asked for and
/// there is space; and a write says how much it took, all that was asked for
/// and was there.
pub proof fn law_written_bytes_are_read_back(
    file: &mut WritableFileOps,
    offset: usize,
    len: usize,
    buf: &[u8],
    result: Result<usize, SystemError>,
    want: usize,
    room: &mut [u8],
    read: Result<usize, SystemError>,
    i: int,
)
    requires
        offset + len <= isize::MAX,
        call_ensures(WritableFileOps::write_at, (file, offset, len, buf), result),
        call_ensures(WritableFileOps::read_at, (&*final(file), offset, want, room), read),
    ensures
        result matches Ok(taken) && taken <= len && taken <= buf@.len() && (taken == len || taken
            == buf@.len()),
        0 <= i < result->Ok_0 && i < want && i < old(room)@.len() ==> read is Ok && i < read->Ok_0
            && final(room)@[i] == buf@[i],
{
}

/// A write reaches to its end and changes no byte outside of what it took: what
/// was there stays, and what is new is zero.
pub proof fn law_write_changes_only_its_place(
    file: &mut WritableFileOps,
    offset: usize,
    len: usize,
    buf: &[u8],
    result: Result<usize, SystemError>,
    i: int,
)
    requires
        offset + len <= isize::MAX,
        call_ensures(WritableFileOps::write_at, (file, offset, len, buf), result),
    ensures
        final(file)@.len() == old(file)@.len() || final(file)@.len() == offset + len,
        final(file)@.len() >= old(file)@.len() && final(file)@.len() >= offset + len,
        0 <= i < final(file)@.len() && result is Ok && (i < offset || i >= offset + result->Ok_0)
            ==> final(file)@[i] == (if i < old(file)@.len() {
            old(file)@[i]
        } else {
            0u8
        }),
{
}

/// The link `/proc/self` leads to the number of the process that reads it,
/// written out in full.
pub proof fn law_self_leads_to_the_reader(
    link: SelfSymOps,
    current: ProcessControlBlock,
    result: Result<String, SystemError>,
    text: String,
)
    requires
        call_ensures(SelfSymOps::read_link, (&link, &current), result),
        call_ensures(decimal, (current.pid.data,), text),
    ensures
        result is Ok,
        digits_value(result->Ok_0@) == current.pid.data,
        forall|i: int| 0 <= i < result->Ok_0@.len() ==> is_digit(#[trigger] result->Ok_0@[i]),
        result->Ok_0@ == text@,
{
    law_decimal_reads_back(current.pid.data, text);
}

/// The node has these permission bits and this parent, and is not volatile.
pub open spec fn plain_node(common: Common, bits: u32, parent: NodeRef) -> bool {
    common.mode.bits == bits && common.parent == parent && !common.is_volatile
}

/// The sample nodes name the parent that they were made under. The files are
/// readable by everybody, one also writable by its owner; the link is open to
/// everybody. The writable file is empty.
pub proof fn law_sample_nodes_name_their_parent(
    parent: NodeRef,
    fixed: Inode,
    writable: Inode,
    link: Inode,
)
    requires
        call_ensures(ExampleFileOps::new_inode, (parent,), fixed),
        call_ensures(WritableFileOps::new_inode, (parent,), writable),
        call_ensures(SelfSymOps::new_inode, (parent,), link),
    ensures
        fixed matches Inode::ExampleFile(file) && plain_node(file.common, 0o444, parent)
            && file.inner.content@ == "Hello from ProcFS template system!\n"@,
        writable matches Inode::WritableFile(file) && plain_node(file.common, 0o644, parent)
            && file.inner@.len() == 0,
        link matches Inode::SelfSym(link) && plain_node(link.common, 0o777, parent),
{
}

/// A new sample directory has no children and knows where it is.
pub proof fn law_new_sample_directory(
    parent: NodeRef,
    self_ref: NodeRef,
    dir: ProcDir<ExampleDirOps>,
    name: &str,
    found: Option<&Inode>,
)
    requires
        call_ensures(ExampleDirOps::new_inode, (parent, self_ref), dir),
        call_ensures(ChildCache::<Inode>::get, (&dir.node.cached_children, name), found),
    ensures
        plain_node(dir.node.common, 0o555, parent),
        dir.node.self_ref == self_ref,
        found is None,
{
}

/// A child of the sample directory `self_ref` under this name, as it is made.
pub open spec fn fresh_sample(name: Seq<char>, self_ref: NodeRef, child: Inode) -> bool {
    &&& name == "example_file"@ ==> (child matches Inode::ExampleFile(file) && plain_node(
        file.common,
        0o444,
        self_ref,
    ) && file.inner.content@ == "Hello from ProcFS template system!\n"@)
    &&& name == "writable_file"@ ==> (child matches Inode::WritableFile(file) && plain_node(
        file.common,
        0o644,
        self_ref,
    ) && file.inner@.len() == 0)
    &&& name == "self"@ ==> (child matches Inode::SelfSym(link) && plain_node(
        link.common,
        0o777,
        self_ref,
    ))
}

/// Whether a name is one of the sample directory.
pub open spec fn sample_name(name: Seq<char>) -> bool {
    name == "example_file"@ || name == "writable_file"@ || name == "self"@
}

/// A lookup in the sample directory finds each of its three names and no other.
/// A child that is there is found as it is; one that is not is made, names the
/// directory as its parent, and stays. Nothing else changes.
pub proof fn law_sample_lookup(
    ops: ExampleDirOps,
    dir: &mut DirNode,
    name: &str,
    result: Result<&Inode, SystemError>,
    other: Seq<char>,
)
    requires
        old(dir).wf(),
        call_ensures(ExampleDirOps::lookup_child, (&ops, dir, name), result),
    ensures
        result is Ok <==> sample_name(name@),
        result matches Err(e) ==> e == SystemError::ENOENT && final(dir).children() == old(dir).children(),
        result matches Ok(child) ==> {
            &&& final(dir).children().contains_key(name@)
            &&& *child == final(dir).children()[name@]
            &&& old(dir).children().contains_key(name@) ==> *child == old(dir).children()[name@]
            &&& !old(dir).children().contains_key(name@) ==> fresh_sample(
                name@,
                old(dir).self_ref,
                *child,
            )
        },
        other != name@ ==> {
            &&& final(dir).children().contains_key(other) == old(dir).children().contains_key(other)
            &&& old(dir).children().contains_key(other) ==> final(dir).children()[other] == old(dir).children()[other]
        },
        final(dir).common == old(dir).common,
        final(dir).self_ref == old(dir).self_ref,
{
    lemma_example_names_differ();
    assert(ops.names()[0] == "example_file"@);
    assert(ops.names()[1] == "writable_file"@);
    assert(ops.names()[2] == "self"@);
}

/// A listing of the sample directory adds its three children where they are
/// missing, just as a lookup makes them, and nothing else.
pub proof fn law_sample_listing(ops: ExampleDirOps, dir: &mut DirNode, unit: (), name: Seq<char>)
    requires
        old(dir).wf(),
        call_ensures(ExampleDirOps::populate_children, (&ops, dir), unit),
    ensures
        final(dir).children().contains_key(name) <==> old(dir).children().contains_key(name)
            || sample_name(name),
        old(dir).children().contains_key(name) ==> final(dir).children()[name] == old(dir).children()[name],
        sample_name(name) && !old(dir).children().contains_key(name) ==> fresh_sample(
            name,
            old(dir).self_ref,
            final(dir).children()[name],
        ),
        final(dir).common == old(dir).common,
        final(dir).self_ref == old(dir).self_ref,
{
    lemma_example_names_differ();
    assert(ops.names()[0] == "example_file"@);
    assert(ops.names()[1] == "writable_file"@);
    assert(ops.names()[2] == "self"@);
    let listed = final(dir).children();
    assert(listed.contains_key(name) || !sample_name(name));
}

/// A child of the directory `self_ref` of a process under this name, as it is
/// made while the process is there, and once it has exited.
pub open spec fn fresh_of_process(
    process: Option<Arc<ProcessControlBlock>>,
    name: Seq<char>,
    self_ref: NodeRef,
    child: Inode,
) -> bool {
    match process {
        Some(process) => {
            &&& name == "status"@ ==> child == (Inode::Status { process, parent: self_ref })
            &&& name == "exe"@ ==> (child matches Inode::Exe(link) && link.inner.process_ref
                == process && plain_node(link.common, 0o777, self_ref))
            &&& name == "fd"@ ==> child == (Inode::FdDir { process, parent: self_ref })
        },
        None => {
            &&& name == "status"@ ==> (child matches Inode::EmptyFile(file) && plain_node(
                file.common,
                0o444,
                self_ref,
            ))
            &&& name == "exe"@ ==> (child matches Inode::EmptySym(link) && plain_node(
                link.common,
                0o777,
                self_ref,
            ))
        },
    }
}

/// A lookup in the directory of a process finds its status and its executable,
/// and its open files while it is there or where they were found before. A
/// child that is there is found as it is; one that is not is made for the
/// process, names the directory as its parent, and stays. Nothing else changes.
pub proof fn law_process_lookup(
    process: Option<Arc<ProcessControlBlock>>,
    dir: &mut DirNode,
    name: &str,
    result: Result<&Inode, SystemError>,
    other: Seq<char>,
)
    requires
        old(dir).wf(),
        call_ensures(PidDirOps::lookup_child_with, (process, dir, name), result),
    ensures
        name@ == "status"@ || name@ == "exe"@ ==> result is Ok,
        name@ == "fd"@ && (process is Some || old(dir).children().contains_key(name@)) ==> result
            is Ok,
        name@ == "fd"@ && process is None && !old(dir).children().contains_key(name@) ==> result
            == Err::<&Inode, SystemError>(SystemError::ESRCH),
        name@ != "status"@ && name@ != "exe"@ && name@ != "fd"@ ==> result == Err::<
            &Inode,
            SystemError,
        >(SystemError::ENOENT),
        result is Err ==> final(dir).children() == old(dir).children(),
        result matches Ok(child) ==> {
            &&& final(dir).children().contains_key(name@)
            &&& *child == final(dir).children()[name@]
            &&& old(dir).children().contains_key(name@) ==> *child == old(dir).children()[name@]
            &&& !old(dir).children().contains_key(name@) ==> fresh_of_process(
                process,
                name@,
                old(dir).self_ref,
                *child,
            )
        },
        other != name@ ==> {
            &&& final(dir).children().contains_key(other) == old(dir).children().contains_key(other)
            &&& old(dir).children().contains_key(other) ==> final(dir).children()[other] == old(dir).children()[other]
        },
        final(dir).common == old(dir).common,
        final(dir).self_ref == old(dir).self_ref,
{
    lemma_pid_names_differ();
    let entries = PidEntries { process };
    assert(entries.names()[0] == "status"@);
    assert(entries.names()[1] == "exe"@);
}

/// A listing of the directory of a process adds its status and its executable,
/// and its open files while it is there, where they are missing; each is what a
/// lookup makes. Nothing else changes.
pub proof fn law_process_listing(
    process: Option<Arc<ProcessControlBlock>>,
    dir: &mut DirNode,
    unit: (),
    name: Seq<char>,
)
    requires
        old(dir).wf(),
        call_ensures(PidDirOps::populate_children_with, (process, dir), unit),
    ensures
        final(dir).children().contains_key(name) <==> old(dir).children().contains_key(name) || name
            == "status"@ || name == "exe"@ || (name == "fd"@ && process is Some),
        old(dir).children().contains_key(name) ==> final(dir).children()[name] == old(dir).children()[name],
        final(dir).children().contains_key(name) && !old(dir).children().contains_key(name)
            ==> fresh_of_process(process, name, old(dir).self_ref, final(dir).children()[name]),
        final(dir).common == old(dir).common,
        final(dir).self_ref == old(dir).self_ref,
{
    lemma_pid_names_differ();
    let entries = PidEntries { process };
    assert(entries.names()[0] == "status"@);
    assert(entries.names()[1] == "exe"@);
    let before = old(dir).children();
    let after = final(dir).children();
    let rest = if !before.contains_key("fd"@) && process is Some {
        after.remove("fd"@)
    } else {
        after
    };
    assert(rest.contains_key(name) <==> before.contains_key(name) || entries.names().contains(
        name,
    ));
}

/// A listing and a lookup make the same child: whatever name a lookup finds in a
/// directory, a listing of the same directory has the same child there.
pub proof fn law_listing_makes_what_a_lookup_makes(
    process: Option<Arc<ProcessControlBlock>>,
    looked: &mut DirNode,
    name: &str,
    result: Result<&Inode, SystemError>,
    listed: &mut DirNode,
    unit: (),
)
    requires
        old(looked).wf(),
        old(listed).wf(),
        old(looked).children() == old(listed).children(),
        old(looked).self_ref == old(listed).self_ref,
        call_ensures(PidDirOps::lookup_child_with, (process, looked, name), result),
        call_ensures(PidDirOps::populate_children_with, (process, listed), unit),
    ensures
        result matches Ok(child) ==> final(listed).children().contains_key(name@) && *child
            == final(listed).children()[name@],
{
    law_process_lookup(process, looked, name, result, name@);
    law_process_listing(process, listed, unit, name@);
    lemma_pid_names_differ();
}

/// What a listing of a live process put under `fd` is what every later lookup of
/// `fd` finds, also once the process has exited: the directory of its open
/// files.
pub proof fn law_listed_fd_is_found(
    process: Arc<ProcessControlBlock>,
    dir: &mut DirNode,
    unit: (),
    later: &mut DirNode,
    still: Option<Arc<ProcessControlBlock>>,
    name: &str,
    result: Result<&Inode, SystemError>,
)
    requires
        old(dir).wf(),
        !old(dir).children().contains_key("fd"@),
        call_ensures(PidDirOps::populate_children_with, (Some(process), dir), unit),
        *later == *final(dir),
        name@ == "fd"@,
        call_ensures(PidDirOps::lookup_child_with, (still, later, name), result),
    ensures
        result matches Ok(child) && *child == (Inode::FdDir {
            process,
            parent: old(dir).self_ref,
        }),
        final(later).children() == final(dir).children(),
{
    law_process_listing(Some(process), dir, unit, "fd"@);
    law_process_lookup(still, later, name, result, name@);
}

/// A new directory of a process has no children, knows where it is, is volatile,
/// and keeps the number of its process.
pub proof fn law_new_process_directory(
    process: Arc<ProcessControlBlock>,
    parent: NodeRef,
    self_ref: NodeRef,
    dir: ProcDir<PidDirOps>,
    pid: RawPid,
    found: Option<Arc<ProcessControlBlock>>,
    name: &str,
    child: Option<&Inode>,
)
    requires
        call_ensures(PidDirOps::new_inode, (process, parent, self_ref), dir),
        call_ensures(PidDirOps::pid, (&dir.inner,), pid),
        call_ensures(PidDirOps::get_process, (&dir.inner,), found),
        call_ensures(ChildCache::<Inode>::get, (&dir.node.cached_children, name), child),
    ensures
        pid == process.pid,
        found matches Some(found) ==> found == process,
        dir.node.common.mode.bits == 0o555,
        dir.node.common.parent == parent,
        dir.node.common.is_volatile,
        dir.node.self_ref == self_ref,
        child is None,
{
}

/// A lookup in the new directory of a process makes children of that process, or
/// empty ones: the open files, or the answer that there is no such process; the
/// status and the executable, or their placeholders; and no other name.
pub proof fn law_process_directory_is_of_its_process(
    process: Arc<ProcessControlBlock>,
    parent: NodeRef,
    self_ref: NodeRef,
    dir: ProcDir<PidDirOps>,
    node: &mut DirNode,
    name: &str,
    result: Result<&Inode, SystemError>,
)
    requires
        call_ensures(PidDirOps::new_inode, (process, parent, self_ref), dir),
        *node == dir.node,
        call_ensures(PidDirOps::lookup_child, (&dir.inner, node, name), result),
    ensures
        name@ == "status"@ || name@ == "exe"@ ==> result is Ok,
        name@ == "fd"@ ==> result is Ok || result == Err::<&Inode, SystemError>(
            SystemError::ESRCH,
        ),
        name@ != "status"@ && name@ != "exe"@ && name@ != "fd"@ ==> result == Err::<
            &Inode,
            SystemError,
        >(SystemError::ENOENT),
        result matches Ok(child) ==> fresh_of_process(Some(process), name@, self_ref, *child) || (
        name@ != "fd"@ && fresh_of_process(None, name@, self_ref, *child)),
{
    lemma_pid_names_differ();
    let live = PidEntries { process: Some(process) };
    let gone = PidEntries { process: None };
    assert(live.names()[0] == "status"@);
    assert(live.names()[1] == "exe"@);
    assert(gone.names() =~= live.names());
}

/// Whatever became of the process, a lookup and a listing leave the children that
/// are there as they are, find them under their names, and stay in their place.
/// A lookup touches no other name, and a refused one changes nothing.
pub proof fn law_process_children_stay(
    ops: PidDirOps,
    dir: &mut DirNode,
    name: &str,
    result: Result<&Inode, SystemError>,
    listed: &mut DirNode,
    unit: (),
    other: Seq<char>,
)
    requires
        old(dir).wf(),
        old(listed).wf(),
        call_ensures(PidDirOps::lookup_child, (&ops, dir, name), result),
        call_ensures(PidDirOps::populate_children, (&ops, listed), unit),
    ensures
        old(dir).children().contains_key(name@) && (name@ == "status"@ || name@ == "exe"@ || name@
            == "fd"@) ==> (result matches Ok(child) && *child == old(dir).children()[name@]),
        result is Err ==> final(dir).children() == old(dir).children(),
        result matches Ok(child) ==> final(dir).children().contains_key(name@) && *child
            == final(dir).children()[name@],
        other != name@ ==> final(dir).children().contains_key(other) == old(dir).children().contains_key(other),
        old(dir).children().contains_key(other) ==> final(dir).children()[other] == old(dir).children()[other],
        final(dir).common == old(dir).common,
        final(dir).self_ref == old(dir).self_ref,
        old(listed).children().contains_key(other) ==> final(listed).children().contains_key(other)
            && final(listed).children()[other] == old(listed).children()[other],
        final(listed).children().contains_key(other) && !old(listed).children().contains_key(other)
            ==> other == "status"@ || other == "exe"@ || other == "fd"@,
        final(listed).common == old(listed).common,
        final(listed).self_ref == old(listed).self_ref,
{
    lemma_pid_names_differ();
    let live = PidEntries { process: Some(ops.linked()) };
    let gone = PidEntries { process: None };
    assert(live.names()[0] == "status"@);
    assert(live.names()[1] == "exe"@);
    assert(gone.names() =~= live.names());
    let before = old(listed).children();
    let after = final(listed).children();
    let rest = after.remove("fd"@);
    assert(rest.contains_key(other) ==> after.contains_key(other));
    assert(after.contains_key(other) && other != "fd"@ ==> rest.contains_key(other));
}

/// A listing of the new directory of a process shows its status and its
/// executable; either all that it shows, with the open files, is of the process,
/// or all is empty and the open files are missing.
pub proof fn law_process_directory_lists_its_process(
    process: Arc<ProcessControlBlock>,
    parent: NodeRef,
    self_ref: NodeRef,
    dir: ProcDir<PidDirOps>,
    node: &mut DirNode,
    unit: (),
)
    requires
        call_ensures(PidDirOps::new_inode, (process, parent, self_ref), dir),
        *node == dir.node,
        call_ensures(PidDirOps::populate_children, (&dir.inner, node), unit),
    ensures
        final(node).children().contains_key("status"@),
        final(node).children().contains_key("exe"@),
        ({
            let answer = if final(node).children().contains_key("fd"@) {
                Some(process)
            } else {
                None
            };
            forall|name: Seq<char>| #[trigger]
                final(node).children().contains_key(name) ==> fresh_of_process(
                    answer,
                    name,
                    self_ref,
                    final(node).children()[name],
                )
        }),
{
    lemma_pid_names_differ();
    let live = PidEntries { process: Some(process) };
    let gone = PidEntries { process: None };
    assert(live.names()[0] == "status"@);
    assert(live.names()[1] == "exe"@);
    assert(gone.names()[0] == "status"@);
    assert(gone.names()[1] == "exe"@);
    let after = final(node).children();
    let rest = after.remove("fd"@);
    assert(rest.contains_key("status"@) ==> after.contains_key("status"@));
    assert(rest.contains_key("exe"@) ==> after.contains_key("exe"@));
    assert forall|name: Seq<char>| #[trigger] after.contains_key(name) implies rest.contains_key(
        name,
    ) || name == "fd"@ by {}
}

/// The link to the executable of a process is for that process, names its
/// parent, and gives the path of the process: all of it where there is space,
/// and else as much as there is space for, with the rest of the buffer alone.
pub proof fn law_exe_gives_the_path_of_its_process(
    process: Arc<ProcessControlBlock>,
    parent: NodeRef,
    link: ExeSymOps,
    child: Inode,
    buf: &mut [u8],
    result: Result<usize, SystemError>,
    other: &mut [u8],
    copied: usize,
)
    requires
        call_ensures(ExeSymOps::new, (process,), link),
        call_ensures(ExeSymOps::new_inode, (process, parent), child),
        call_ensures(ExeSymOps::read_link, (&link, buf), result),
        call_ensures(ExeSymOps::copy_path, (&*process, other), copied),
    ensures
        child matches Inode::Exe(node) && node.inner.process_ref == process && plain_node(
            node.common,
            0o777,
            parent,
        ),
        result matches Ok(taken) && handed_out(
            vstd::utf8::encode_utf8(process.execute_path@),
            0,
            vstd::utf8::encode_utf8(process.execute_path@).len() as int,
            old(buf)@,
            final(buf)@,
            taken as int,
        ),
        handed_out(
            vstd::utf8::encode_utf8(process.execute_path@),
            0,
            vstd::utf8::encode_utf8(process.execute_path@).len() as int,
            old(other)@,
            final(other)@,
            copied as int,
        ),
{
}

/// The placeholders of a process that has exited are empty, leave the buffer
/// alone, and cannot be written.
pub proof fn law_placeholders_are_empty(
    file: EmptyFileOps,
    offset: usize,
    len: usize,
    buf: &mut [u8],
    read: Result<usize, SystemError>,
    data: &[u8],
    written: Result<usize, SystemError>,
    link: EmptySymOps,
    link_buf: &mut [u8],
    target: Result<usize, SystemError>,
)
    requires
        call_ensures(EmptyFileOps::read_at, (&file, offset, len, buf), read),
        call_ensures(EmptyFileOps::write_at, (&file, offset, len, data), written),
        call_ensures(EmptySymOps::read_link, (&link, link_buf), target),
    ensures
        read == Ok::<usize, SystemError>(0),
        final(buf)@ == old(buf)@,
        written == Err::<usize, SystemError>(SystemError::EPERM),
        target == Ok::<usize, SystemError>(0),
        final(link_buf)@ == old(link_buf)@,
{
}

} // verus!
