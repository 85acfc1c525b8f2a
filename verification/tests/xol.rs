use dragonos::process::xol::{ActiveXol, TaskXolPhase, TaskXolState, XolSlotLease};
use std::sync::Arc;

fn active(probe_vaddr: usize) -> ActiveXol {
    ActiveXol {
        probe_vaddr,
        return_addr: probe_vaddr + 3,
        orig_tf: false,
        slot_end: 0x7000,
        xol_lease: Arc::new(XolSlotLease { offset: 128 }),
    }
}

#[test]
fn new_state_is_idle() {
    let mut state = TaskXolState::new();
    assert_eq!(state.phase(), TaskXolPhase::Idle);
    assert_eq!(state.active_probe_vaddr(), None);
    assert_eq!(state.mark_trapped(), None);
    assert!(state.take().is_none());
    assert!(!state.discard());
}

#[test]
fn default_state_is_new() {
    let state = TaskXolState::default();
    assert_eq!(state.phase(), TaskXolPhase::Idle);
    assert_eq!(state.active_probe_vaddr(), None);
}

#[test]
fn phases_have_their_numbers() {
    assert_eq!(TaskXolPhase::Idle.as_raw(), 0);
    assert_eq!(TaskXolPhase::Running.as_raw(), 1);
    assert_eq!(TaskXolPhase::Trapped.as_raw(), 2);
    assert_eq!(TaskXolPhase::from_raw(0), TaskXolPhase::Idle);
    assert_eq!(TaskXolPhase::from_raw(1), TaskXolPhase::Running);
    assert_eq!(TaskXolPhase::from_raw(2), TaskXolPhase::Trapped);
}

#[test]
fn publish_then_take_gives_back_the_operation() {
    let mut state = TaskXolState::new();
    assert!(state.publish_running(active(0x401000)).is_ok());
    assert_eq!(state.phase(), TaskXolPhase::Running);
    assert_eq!(state.active_probe_vaddr(), Some(0x401000));
    match state.take() {
        Some((phase, taken)) => {
            assert_eq!(phase, TaskXolPhase::Running);
            assert_eq!(taken.probe_vaddr, 0x401000);
            assert_eq!(taken.return_addr, 0x401003);
            assert_eq!(taken.orig_tf, false);
            assert_eq!(taken.slot_end, 0x7000);
            assert_eq!(taken.xol_lease.offset(), 128);
        }
        None => panic!("the operation is lost"),
    }
    assert_eq!(state.phase(), TaskXolPhase::Idle);
    assert!(state.take().is_none());
    assert!(state.publish_running(active(0x402000)).is_ok());
}

#[test]
fn publish_refuses_to_overwrite() {
    let mut state = TaskXolState::new();
    assert!(state.publish_running(active(1)).is_ok());
    match state.publish_running(active(2)) {
        Ok(()) => panic!("overwritten"),
        Err(refused) => assert_eq!(refused.probe_vaddr, 2),
    }
    assert_eq!(state.active_probe_vaddr(), Some(1));
    assert_eq!(state.mark_trapped(), Some(1));
    assert!(state.publish_running(active(3)).is_err());
    assert_eq!(state.phase(), TaskXolPhase::Trapped);
}

#[test]
fn mark_trapped_is_idempotent() {
    let mut state = TaskXolState::new();
    assert!(state.publish_running(active(0x1234)).is_ok());
    assert_eq!(state.mark_trapped(), Some(0x1234));
    assert_eq!(state.phase(), TaskXolPhase::Trapped);
    assert_eq!(state.mark_trapped(), Some(0x1234));
    assert_eq!(state.active_probe_vaddr(), Some(0x1234));
    match state.take() {
        Some((phase, taken)) => {
            assert_eq!(phase, TaskXolPhase::Trapped);
            assert_eq!(taken.probe_vaddr, 0x1234);
        }
        None => panic!("the operation is lost"),
    }
}

#[test]
fn discard_drops_the_lease() {
    let lease = Arc::new(XolSlotLease { offset: 64 });
    let mut state = TaskXolState::new();
    let operation = ActiveXol {
        probe_vaddr: 5,
        return_addr: 6,
        orig_tf: true,
        slot_end: 7,
        xol_lease: lease.clone(),
    };
    assert!(state.publish_running(operation).is_ok());
    assert_eq!(Arc::strong_count(&lease), 2);
    assert!(state.discard());
    assert_eq!(Arc::strong_count(&lease), 1);
    assert!(!state.discard());
}

#[test]
fn nesting_inside_a_publication_finds_nothing() {
    let mut state = TaskXolState::new();
    assert!(!state.holds_payload());
    assert!(state.store_payload(active(10)).is_ok());
    assert!(state.holds_payload());
    assert_eq!(state.phase(), TaskXolPhase::Idle);
    assert_eq!(state.active_probe_vaddr(), None);
    assert!(state.publish_running(active(11)).is_err());
    assert!(state.take().is_none());
    assert_eq!(state.mark_trapped(), None);
    state.release_running();
    assert_eq!(state.active_probe_vaddr(), Some(10));
}

#[test]
fn nesting_inside_a_consumer_finds_nothing() {
    let mut state = TaskXolState::new();
    assert!(state.publish_running(active(20)).is_ok());
    assert!(state.exchange_trapped());
    assert!(!state.exchange_trapped());
    assert_eq!(state.swap_idle(), TaskXolPhase::Trapped);
    assert!(state.publish_running(active(21)).is_err());
    assert!(state.take().is_none());
    match state.take_payload() {
        Some(taken) => assert_eq!(taken.probe_vaddr, 20),
        None => panic!("the operation is lost"),
    }
    assert!(state.publish_running(active(22)).is_ok());
}

#[test]
fn diagnostic_texts() {
    let mut state = TaskXolState::new();
    assert_eq!(state.fmt(), "TaskXolState { phase: Idle, .. }");
    let operation = ActiveXol {
        probe_vaddr: 4198400,
        return_addr: 4198403,
        orig_tf: true,
        slot_end: 28672,
        xol_lease: Arc::new(XolSlotLease { offset: 0 }),
    };
    assert_eq!(
        operation.fmt(),
        "ActiveXol { probe_vaddr: 4198400, return_addr: 4198403, orig_tf: true, slot_end: 28672, xol_slot_offset: 0, .. }"
    );
    assert!(state.publish_running(operation).is_ok());
    assert_eq!(state.fmt(), "TaskXolState { phase: Running, .. }");
    assert_eq!(state.mark_trapped(), Some(4198400));
    assert_eq!(state.fmt(), "TaskXolState { phase: Trapped, .. }");
}
