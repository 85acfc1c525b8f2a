use dragonos::error::SystemError;
use dragonos::process::pcb::{Pid, ProcessControlBlock};
use dragonos::process::uret::TaskUretState;
use dragonos::procfs::cache::{name_order, same_name, ChildCache, NameOrder};
use dragonos::procfs::examples::{ExampleDirOps, ExampleFileOps, SelfSymOps, WritableFileOps};
use dragonos::procfs::exe::ExeSymOps;
use dragonos::procfs::pid::PidDirOps;
use dragonos::procfs::template::{read_content, Inode, NodeRef};
use std::sync::Arc;

const ROOT: NodeRef = NodeRef { id: 1 };
const HERE: NodeRef = NodeRef { id: 2 };

fn process(pid: usize, path: &str) -> ProcessControlBlock {
    ProcessControlBlock {
        pid: Pid::new(pid),
        pgid: Pid::new(pid),
        sid: Pid::new(pid),
        session_leader: false,
        session: None,
        tty: None,
        has_pending_signal: false,
        execute_path: String::from(path),
        uret: TaskUretState::new(),
    }
}

#[test]
fn names_are_ordered_by_bytes() {
    assert_eq!(name_order("exe", "fd"), NameOrder::Before);
    assert_eq!(name_order("fd", "exe"), NameOrder::After);
    assert_eq!(name_order("fd", "fd"), NameOrder::Same);
    assert_eq!(name_order("fd", "fdinfo"), NameOrder::Before);
    assert_eq!(name_order("fdinfo", "fd"), NameOrder::After);
    assert_eq!(name_order("", "a"), NameOrder::Before);
    assert_eq!(name_order("Z", "a"), NameOrder::Before);
    assert_eq!(name_order("z", "\u{e9}"), NameOrder::Before);
    assert!(same_name("", ""));
    assert!(!same_name("status", "statuS"));
}

#[test]
fn cache_keeps_names_in_order() {
    let mut cache: ChildCache<u32> = ChildCache::new();
    assert!(cache.names().is_empty());
    assert!(cache.get("b").is_none());
    cache.insert("b", 2);
    cache.insert("c", 3);
    cache.insert("a", 1);
    assert_eq!(cache.names(), vec!["a", "b", "c"]);
    assert_eq!(cache.get("a"), Some(&1));
    assert_eq!(cache.get("b"), Some(&2));
    assert_eq!(cache.get("c"), Some(&3));
    assert!(!cache.contains_key("d"));
    match cache.get_mut("b") {
        Some(child) => *child = 20,
        None => panic!("the child is lost"),
    }
    assert!(cache.get_mut("d").is_none());
    assert_eq!(cache.get("b"), Some(&20));
    assert_eq!(cache.names(), vec!["a", "b", "c"]);
}

#[test]
fn reads_hand_out_a_window() {
    let content = [1u8, 2, 3, 4, 5];
    let mut buf = [9u8; 4];
    assert_eq!(read_content(&content, 1, 2, &mut buf), 2);
    assert_eq!(buf, [2, 3, 9, 9]);
    assert_eq!(read_content(&content, 0, 100, &mut buf), 4);
    assert_eq!(buf, [1, 2, 3, 4]);
    assert_eq!(read_content(&content, 4, 100, &mut buf), 1);
    assert_eq!(buf, [5, 2, 3, 4]);
    assert_eq!(read_content(&content, 5, 1, &mut buf), 0);
    assert_eq!(read_content(&content, usize::MAX, 1, &mut buf), 0);
    assert_eq!(read_content(&content, 0, 0, &mut buf), 0);
    assert_eq!(buf, [5, 2, 3, 4]);
}

#[test]
fn reading_in_parts_continues() {
    let file = ExampleFileOps::new("0123456789");
    let mut whole = [0u8; 10];
    assert_eq!(file.read_at(0, 10, &mut whole), Ok(10));
    let mut head = [0u8; 4];
    let mut tail = [0u8; 10];
    assert_eq!(file.read_at(0, 4, &mut head), Ok(4));
    assert_eq!(file.read_at(4, 10, &mut tail), Ok(6));
    assert_eq!(&whole[..4], &head[..]);
    assert_eq!(&whole[4..], &tail[..6]);
    assert_eq!(file.read_at(10, 10, &mut tail), Ok(0));
}

#[test]
fn example_file_is_read_only() {
    match ExampleFileOps::new_inode(HERE) {
        Inode::ExampleFile(file) => {
            assert_eq!(file.common.mode.bits, 0o444);
            assert_eq!(file.common.parent, HERE);
            assert!(!file.common.is_volatile);
            let mut buf = [0u8; 64];
            assert_eq!(file.inner.read_at(0, 64, &mut buf), Ok(35));
            assert_eq!(&buf[..35], b"Hello from ProcFS template system!\n");
            assert_eq!(file.inner.read_at(6, 4, &mut buf), Ok(4));
            assert_eq!(&buf[..4], b"from");
            assert_eq!(file.inner.read_at(35, 4, &mut buf), Ok(0));
            assert_eq!(file.inner.write_at(0, 1, b"x"), Err(SystemError::EPERM));
        }
        _ => panic!("not the file"),
    }
}

#[test]
fn writable_file_keeps_what_is_written() {
    let mut file = WritableFileOps::new();
    let mut buf = [7u8; 8];
    assert_eq!(file.read_at(0, 8, &mut buf), Ok(0));
    assert_eq!(file.write_at(2, 3, b"abc"), Ok(3));
    assert_eq!(file.read_at(0, 8, &mut buf), Ok(5));
    assert_eq!(buf, [0, 0, b'a', b'b', b'c', 7, 7, 7]);
    assert_eq!(file.read_at(2, 3, &mut buf), Ok(3));
    assert_eq!(&buf[..3], b"abc");
    assert_eq!(file.write_at(3, 1, b"XYZ"), Ok(1));
    assert_eq!(file.read_at(0, 8, &mut buf), Ok(5));
    assert_eq!(&buf[..5], b"\0\0aXc");
    assert_eq!(file.write_at(3, 1, b"XYZ"), Ok(1));
    assert_eq!(file.read_at(0, 8, &mut buf), Ok(5));
    assert_eq!(&buf[..5], b"\0\0aXc");
}

#[test]
fn short_buffer_still_extends_the_file() {
    let mut file = WritableFileOps::new();
    let mut buf = [7u8; 8];
    assert_eq!(file.write_at(1, 5, b"ab"), Ok(2));
    assert_eq!(file.read_at(0, 8, &mut buf), Ok(6));
    assert_eq!(&buf[..6], b"\0ab\0\0\0");
    assert_eq!(file.write_at(8, 0, b"ab"), Ok(0));
    assert_eq!(file.read_at(0, 8, &mut buf), Ok(8));
    assert_eq!(&buf, b"\0ab\0\0\0\0\0");
}

#[test]
fn self_leads_to_the_reader() {
    match SelfSymOps::new_inode(HERE) {
        Inode::SelfSym(link) => {
            assert_eq!(link.common.mode.bits, 0o777);
            assert_eq!(link.common.parent, HERE);
            let a = link.inner.read_link(&process(1, "/init"));
            let b = link.inner.read_link(&process(4711, "/bin/sh"));
            assert_eq!(a, Ok(String::from("1")));
            assert_eq!(b, Ok(String::from("4711")));
        }
        _ => panic!("not the link"),
    }
}

#[test]
fn example_directory_makes_children_on_lookup() {
    let mut dir = ExampleDirOps::new_inode(ROOT, HERE);
    assert_eq!(dir.node.common.mode.bits, 0o555);
    assert_eq!(dir.node.common.parent, ROOT);
    assert!(!dir.node.common.is_volatile);
    assert!(dir.node.cached_children.names().is_empty());
    match dir.inner.lookup_child(&mut dir.node, "writable_file") {
        Ok(Inode::WritableFile(file)) => {
            assert_eq!(file.common.mode.bits, 0o644);
            assert_eq!(file.common.parent, HERE);
        }
        _ => panic!("not the file"),
    }
    assert_eq!(dir.node.cached_children.names(), vec!["writable_file"]);
    assert!(matches!(
        dir.inner.lookup_child(&mut dir.node, "nothing"),
        Err(SystemError::ENOENT)
    ));
    assert_eq!(dir.node.cached_children.names(), vec!["writable_file"]);
    assert!(matches!(
        dir.inner.lookup_child(&mut dir.node, "example_file"),
        Ok(Inode::ExampleFile(_))
    ));
    assert!(matches!(dir.inner.lookup_child(&mut dir.node, "self"), Ok(Inode::SelfSym(_))));
    assert_eq!(
        dir.node.cached_children.names(),
        vec!["example_file", "self", "writable_file"]
    );
}

#[test]
fn lookup_finds_the_same_child_again() {
    let mut dir = ExampleDirOps::new_inode(ROOT, HERE);
    assert!(dir.inner.lookup_child(&mut dir.node, "writable_file").is_ok());
    match dir.node.cached_children.get_mut("writable_file") {
        Some(Inode::WritableFile(file)) => assert_eq!(file.inner.write_at(0, 2, b"hi"), Ok(2)),
        _ => panic!("not the file"),
    }
    dir.inner.populate_children(&mut dir.node);
    match dir.inner.lookup_child(&mut dir.node, "writable_file") {
        Ok(Inode::WritableFile(file)) => {
            let mut buf = [0u8; 4];
            assert_eq!(file.inner.read_at(0, 4, &mut buf), Ok(2));
            assert_eq!(&buf[..2], b"hi");
        }
        _ => panic!("not the file"),
    }
}

#[test]
fn listing_makes_all_children() {
    let mut dir = ExampleDirOps::new_inode(ROOT, HERE);
    dir.inner.populate_children(&mut dir.node);
    let names = vec!["example_file", "self", "writable_file"];
    assert_eq!(dir.node.cached_children.names(), names);
    dir.inner.populate_children(&mut dir.node);
    assert_eq!(dir.node.cached_children.names(), names);
}

#[test]
fn name_outside_the_table_is_not_found_even_if_held() {
    let mut dir = ExampleDirOps::new_inode(ROOT, HERE);
    dir.node.cached_children.insert("stray", ExampleFileOps::new_inode(HERE));
    assert!(matches!(
        dir.inner.lookup_child(&mut dir.node, "stray"),
        Err(SystemError::ENOENT)
    ));
    assert!(dir.node.cached_children.contains_key("stray"));
}

#[test]
fn exe_link_copies_the_path() {
    let pcb = Arc::new(process(5, "/usr/bin/caf\u{e9}"));
    let link = ExeSymOps::new(pcb.clone());
    let mut buf = [0xffu8; 20];
    assert_eq!(link.read_link(&mut buf), Ok(14));
    assert_eq!(&buf[..14], "/usr/bin/caf\u{e9}".as_bytes());
    assert_eq!(&buf[14..], &[0xff; 6]);
    let mut short = [0u8; 4];
    assert_eq!(link.read_link(&mut short), Ok(4));
    assert_eq!(&short, b"/usr");
    assert_eq!(ExeSymOps::copy_path(&process(6, ""), &mut short), 0);
    assert_eq!(&short, b"/usr");
    match ExeSymOps::new_inode(pcb, HERE) {
        Inode::Exe(node) => {
            assert_eq!(node.common.mode.bits, 0o777);
            assert_eq!(node.common.parent, HERE);
            assert_eq!(node.inner.process_ref.pid, Pid::new(5));
        }
        _ => panic!("not the link"),
    }
}

#[test]
fn process_directory_of_a_live_process() {
    let owner = Arc::new(process(42, "/bin/ls"));
    let mut dir = PidDirOps::new_inode(owner.clone(), ROOT, HERE);
    assert_eq!(dir.node.common.parent, ROOT);
    match dir.inner.get_process() {
        Some(found) => assert!(Arc::ptr_eq(&found, &owner)),
        None => panic!("the process is lost"),
    }
    assert_eq!(dir.node.common.mode.bits, 0o555);
    assert!(dir.node.common.is_volatile);
    assert_eq!(dir.inner.pid(), Pid::new(42));
    match dir.inner.lookup_child(&mut dir.node, "status") {
        Ok(Inode::Status { process, parent }) => {
            assert_eq!(process.pid, Pid::new(42));
            assert_eq!(*parent, HERE);
        }
        _ => panic!("not the status"),
    }
    match dir.inner.lookup_child(&mut dir.node, "exe") {
        Ok(Inode::Exe(link)) => {
            let mut buf = [0u8; 7];
            assert_eq!(link.inner.read_link(&mut buf), Ok(7));
            assert_eq!(&buf, b"/bin/ls");
        }
        _ => panic!("not the link"),
    }
    match dir.inner.lookup_child(&mut dir.node, "fd") {
        Ok(Inode::FdDir { process, parent }) => {
            assert_eq!(process.pid, Pid::new(42));
            assert_eq!(*parent, HERE);
        }
        _ => panic!("not the directory"),
    }
    assert!(matches!(
        dir.inner.lookup_child(&mut dir.node, "cmdline"),
        Err(SystemError::ENOENT)
    ));
    assert_eq!(dir.node.cached_children.names(), vec!["exe", "fd", "status"]);
}

#[test]
fn process_directory_lists_its_children() {
    let owner = Arc::new(process(42, "/bin/ls"));
    let mut dir = PidDirOps::new_inode(owner.clone(), ROOT, HERE);
    dir.inner.populate_children(&mut dir.node);
    assert_eq!(dir.node.cached_children.names(), vec!["exe", "fd", "status"]);
    dir.inner.populate_children(&mut dir.node);
    assert_eq!(dir.node.cached_children.names(), vec!["exe", "fd", "status"]);
}

#[test]
fn process_directory_is_no_owner() {
    let owner = Arc::new(process(42, "/bin/ls"));
    let dir = PidDirOps::new_inode(owner.clone(), ROOT, HERE);
    assert_eq!(Arc::strong_count(&owner), 1);
    assert!(dir.inner.get_process().is_some());
    drop(owner);
    assert!(dir.inner.get_process().is_none());
    let sole = PidDirOps::new_inode(Arc::new(process(43, "/bin/ls")), ROOT, HERE);
    assert!(sole.inner.get_process().is_none());
    assert_eq!(sole.inner.pid(), Pid::new(43));
}

#[test]
fn lookup_goes_by_the_process_that_is_handed_in() {
    let owner = Arc::new(process(42, "/bin/ls"));
    let mut dir = PidDirOps::new_inode(owner.clone(), ROOT, HERE);
    assert!(matches!(
        PidDirOps::lookup_child_with(None, &mut dir.node, "fd"),
        Err(SystemError::ESRCH)
    ));
    assert!(matches!(
        PidDirOps::lookup_child_with(None, &mut dir.node, "status"),
        Ok(Inode::EmptyFile(_))
    ));
    assert!(matches!(
        PidDirOps::lookup_child_with(Some(owner.clone()), &mut dir.node, "status"),
        Ok(Inode::EmptyFile(_))
    ));
    PidDirOps::populate_children_with(None, &mut dir.node);
    assert_eq!(dir.node.cached_children.names(), vec!["exe", "status"]);
    assert!(matches!(
        PidDirOps::lookup_child_with(Some(owner.clone()), &mut dir.node, "fd"),
        Ok(Inode::FdDir { .. })
    ));
    PidDirOps::populate_children_with(Some(owner), &mut dir.node);
    assert_eq!(dir.node.cached_children.names(), vec!["exe", "fd", "status"]);
}

#[test]
fn process_directory_of_an_exited_process() {
    let owner = Arc::new(process(42, "/bin/ls"));
    let mut dir = PidDirOps::new_inode(owner.clone(), ROOT, HERE);
    drop(owner);
    assert!(dir.inner.get_process().is_none());
    assert_eq!(dir.inner.pid(), Pid::new(42));
    assert!(matches!(
        dir.inner.lookup_child(&mut dir.node, "fd"),
        Err(SystemError::ESRCH)
    ));
    match dir.inner.lookup_child(&mut dir.node, "status") {
        Ok(Inode::EmptyFile(file)) => {
            assert_eq!(file.common.mode.bits, 0o444);
            assert_eq!(file.common.parent, HERE);
            let mut buf = [3u8; 2];
            assert_eq!(file.inner.read_at(0, 2, &mut buf), Ok(0));
            assert_eq!(buf, [3, 3]);
            assert_eq!(file.inner.write_at(0, 1, b"x"), Err(SystemError::EPERM));
        }
        _ => panic!("not the empty file"),
    }
    match dir.inner.lookup_child(&mut dir.node, "exe") {
        Ok(Inode::EmptySym(link)) => {
            assert_eq!(link.common.mode.bits, 0o777);
            let mut buf = [3u8; 2];
            assert_eq!(link.inner.read_link(&mut buf), Ok(0));
            assert_eq!(buf, [3, 3]);
        }
        _ => panic!("not the empty link"),
    }
    dir.inner.populate_children(&mut dir.node);
    assert_eq!(dir.node.cached_children.names(), vec!["exe", "status"]);
}

#[test]
fn found_children_keep_the_process() {
    let owner = Arc::new(process(42, "/bin/ls"));
    let mut dir = PidDirOps::new_inode(owner.clone(), ROOT, HERE);
    assert!(dir.inner.lookup_child(&mut dir.node, "exe").is_ok());
    assert_eq!(Arc::strong_count(&owner), 2);
    drop(owner);
    assert!(dir.inner.get_process().is_some());
    assert!(matches!(dir.inner.lookup_child(&mut dir.node, "exe"), Ok(Inode::Exe(_))));
    assert!(matches!(dir.inner.lookup_child(&mut dir.node, "fd"), Ok(Inode::FdDir { .. })));
    dir.inner.populate_children(&mut dir.node);
    assert_eq!(dir.node.cached_children.names(), vec!["exe", "fd", "status"]);
}
