use dragonos::process::frames::FrameStack;
use dragonos::process::pcb::{cleanup_task_uret_instances, Pid, ProcessControlBlock};
use dragonos::process::uret::{
    ReturnInstance, TaskUretState, UprobeParticipantNode, UretAliveCheck, MAX_URETPROBE_DEPTH,
};
use std::sync::Arc;

fn frame(stack: usize) -> ReturnInstance {
    ReturnInstance {
        func: 0x1000,
        stack,
        orig_ret_vaddr: stack + 1,
        chained: false,
        participants: None,
    }
}

fn chain_of(stacks: &[usize]) -> TaskUretState {
    let mut state = TaskUretState::new();
    for stack in stacks {
        assert!(state.push(frame(*stack)));
    }
    state
}

fn stacks_of(state: &mut TaskUretState) -> Vec<usize> {
    let chain = state.take_all();
    let stacks: Vec<usize> = chain.iter().map(|ri| ri.stack).collect();
    state.restore_prefix(chain);
    stacks
}

#[test]
fn new_chain_is_empty() {
    let mut state = TaskUretState::new();
    assert_eq!(state.depth(), 0);
    assert_eq!(state.head_orig_ret_vaddr(), None);
    assert!(state.take_all().is_empty());
}

#[test]
fn frames_are_alive_below_their_slot() {
    let ri = frame(100);
    assert!(UretAliveCheck::Call.is_alive(&ri, 99));
    assert!(!UretAliveCheck::Call.is_alive(&ri, 100));
    assert!(!UretAliveCheck::Call.is_alive(&ri, 101));
    assert!(UretAliveCheck::Ret.is_alive(&ri, 99));
    assert!(UretAliveCheck::Ret.is_alive(&ri, 100));
    assert!(!UretAliveCheck::Ret.is_alive(&ri, 101));
}

#[test]
fn push_stops_at_the_cap() {
    assert_eq!(MAX_URETPROBE_DEPTH, 64);
    let mut state = TaskUretState::new();
    for i in 0..64 {
        assert!(state.push(frame(1000 - i)));
        assert_eq!(state.depth(), i + 1);
    }
    assert!(!state.push(frame(1)));
    assert!(!state.reserve_one());
    assert_eq!(state.depth(), 64);
    assert_eq!(state.head_orig_ret_vaddr(), Some(1000 - 63 + 1));
}

#[test]
fn push_makes_the_head() {
    let mut state = chain_of(&[300, 200]);
    assert_eq!(state.head_orig_ret_vaddr(), Some(201));
    assert!(state.push(frame(100)));
    assert_eq!(state.head_orig_ret_vaddr(), Some(101));
    assert_eq!(stacks_of(&mut state), vec![300, 200, 100]);
}

#[test]
fn push_without_memory_fails() {
    let mut state = chain_of(&[300]);
    assert!(!state.push_with(frame(200), None));
    assert_eq!(state.depth(), 1);
    assert!(!state.reserve_with(None));
    let slot = state.try_slot();
    assert!(slot.is_some());
    assert!(state.push_with(frame(200), slot));
    assert_eq!(stacks_of(&mut state), vec![300, 200]);
    let slot = state.try_slot();
    assert!(state.reserve_with(slot));
    assert!(state.reserve_with(None));
    assert!(state.push_with(frame(100), None));
    assert!(!state.push_with(frame(50), None));
    assert_eq!(stacks_of(&mut state), vec![300, 200, 100]);
}

#[test]
fn dropped_frames_leave_room() {
    let mut state = chain_of(&[300, 200, 100]);
    assert!(!state.reserve_with(None));
    state.cleanup_dead(250, UretAliveCheck::Ret);
    assert_eq!(state.depth(), 1);
    assert!(state.reserve_with(None));
    assert!(state.push_with(frame(240), None));
    assert!(state.push_with(frame(230), None));
    assert!(!state.push_with(frame(220), None));
    assert_eq!(stacks_of(&mut state), vec![300, 240, 230]);
}

#[test]
fn reservation_is_kept_through_a_cleanup() {
    let mut state = chain_of(&[300]);
    assert!(state.reserve_one());
    state.cleanup_dead(250, UretAliveCheck::Ret);
    assert_eq!(state.depth(), 1);
    assert!(state.push_with(frame(240), None));
    assert!(!state.push_with(frame(230), None));
}

#[test]
fn detaching_leaves_no_room() {
    let mut state = chain_of(&[300, 200]);
    state.cleanup_dead(250, UretAliveCheck::Ret);
    let chain = state.take_all();
    assert!(!state.push_with(frame(1), None));
    state.restore_prefix(chain);
    assert!(!state.reserve_with(None));
    assert_eq!(state.depth(), 1);
}

#[test]
fn reserved_push_succeeds() {
    let mut state = TaskUretState::new();
    assert!(state.reserve_one());
    assert_eq!(state.depth(), 0);
    assert!(state.push(frame(7)));
    assert_eq!(state.depth(), 1);
}

#[test]
fn cleanup_drops_the_dead_tail() {
    let mut state = chain_of(&[400, 300, 200, 100]);
    state.cleanup_dead(200, UretAliveCheck::Ret);
    assert_eq!(stacks_of(&mut state), vec![400, 300, 200]);
    state.cleanup_dead(200, UretAliveCheck::Ret);
    assert_eq!(stacks_of(&mut state), vec![400, 300, 200]);
    state.cleanup_dead(200, UretAliveCheck::Call);
    assert_eq!(stacks_of(&mut state), vec![400, 300]);
    state.cleanup_dead(1000, UretAliveCheck::Call);
    assert_eq!(state.depth(), 0);
}

#[test]
fn cleanup_stops_at_the_first_live_frame() {
    let mut state = chain_of(&[100, 500, 50]);
    state.cleanup_dead(200, UretAliveCheck::Ret);
    assert_eq!(stacks_of(&mut state), vec![100, 500]);
}

#[test]
fn restore_undoes_take() {
    let mut state = chain_of(&[300, 200, 100]);
    let mut chain = state.take_all();
    assert_eq!(state.depth(), 0);
    assert_eq!(chain.len(), 3);
    chain.truncate(2);
    state.restore_prefix(chain);
    assert_eq!(stacks_of(&mut state), vec![300, 200]);
}

#[test]
fn cleanup_releases_the_participants() {
    let node = Arc::new(UprobeParticipantNode { id: 9 });
    let mut state = TaskUretState::new();
    let mut ri = frame(10);
    ri.participants = Some(node.clone());
    assert!(state.push(ri));
    assert_eq!(Arc::strong_count(&node), 2);
    state.cleanup();
    assert_eq!(state.depth(), 0);
    assert_eq!(Arc::strong_count(&node), 1);
}

#[test]
fn exit_discards_the_chain() {
    let mut pcb = ProcessControlBlock {
        pid: Pid::new(3),
        pgid: Pid::new(3),
        sid: Pid::new(3),
        session_leader: false,
        session: None,
        tty: None,
        has_pending_signal: false,
        execute_path: String::from("/bin/a"),
        uret: chain_of(&[20, 10]),
    };
    cleanup_task_uret_instances(&mut pcb);
    assert_eq!(pcb.uret.depth(), 0);
    assert_eq!(pcb.pid, Pid::new(3));
    assert_eq!(pcb.execute_path(), "/bin/a");
}

#[test]
fn instance_texts() {
    let ri = ReturnInstance {
        func: 4096,
        stack: 140737488347136,
        orig_ret_vaddr: 0,
        chained: true,
        participants: None,
    };
    assert_eq!(
        ri.fmt(),
        "ReturnInstance { func: 4096, stack: 140737488347136, orig_ret_vaddr: 0, chained: true, .. }"
    );
    assert_eq!(TaskUretState::new().fmt(), "TaskUretState { .. }");
}

#[test]
fn frame_stack_operations() {
    let mut stack: FrameStack<u32> = FrameStack::new();
    assert_eq!(stack.len(), 0);
    assert_eq!(stack.last(), None);
    assert!(stack.try_slot().is_some());
    stack.push(1);
    stack.push(2);
    assert_eq!(stack.last(), Some(&2));
    stack.drop_last();
    assert_eq!(stack.len(), 1);
    assert_eq!(stack.take(), vec![1]);
    assert_eq!(stack.len(), 0);
    stack.replace(vec![7, 8]);
    assert_eq!(stack.last(), Some(&8));
}
