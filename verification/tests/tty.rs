use dragonos::error::SystemError;
use dragonos::process::pcb::{Pid, ProcessControlBlock, ProcessGroup, SessionId, TtyId};
use dragonos::process::uret::TaskUretState;
use dragonos::tty::job_control::{
    BackgroundCheck, JobCtrlAction, Signal, SignalDisposition, TtyControlInfo, TtyCore,
    TtyIoctlCmd, TtyJobCtrlManager,
};

fn process(pid: usize, pgid: usize, sid: usize, tty: Option<usize>) -> ProcessControlBlock {
    ProcessControlBlock {
        pid: Pid::new(pid),
        pgid: Pid::new(pgid),
        sid: Pid::new(sid),
        session_leader: pid == sid,
        session: Some(SessionId { id: sid }),
        tty: tty.map(|id| TtyId { id }),
        has_pending_signal: false,
        execute_path: String::from("/bin/sh"),
        uret: TaskUretState::new(),
    }
}

fn terminal(id: usize, session: Option<usize>, pgid: Option<usize>) -> TtyCore {
    TtyCore {
        id: TtyId { id },
        ctrl: TtyControlInfo { session: session.map(Pid::new), pgid: pgid.map(Pid::new) },
    }
}

fn group(pgid: usize, session: usize) -> Option<ProcessGroup> {
    Some(ProcessGroup { pgid: Pid::new(pgid), session: Some(SessionId { id: session }) })
}

fn done(action: JobCtrlAction) -> Result<usize, SystemError> {
    match action {
        JobCtrlAction::Done(result) => result,
        _ => panic!("the request is not done"),
    }
}

#[test]
fn given_terminal_is_controlled() {
    let mut pcb = process(10, 10, 10, None);
    let mut tty = terminal(1, None, None);
    TtyJobCtrlManager::proc_set_tty(&mut tty, &mut pcb);
    assert_eq!(pcb.tty, Some(TtyId { id: 1 }));
    assert_eq!(tty.ctrl.session, Some(Pid::new(10)));
    assert_eq!(tty.ctrl.pgid, Some(Pid::new(10)));
    assert_eq!(TtyJobCtrlManager::tiocgpgrp(&pcb, &tty), Ok(10));
    assert_eq!(TtyJobCtrlManager::tiocgsid(&pcb, &tty), Ok(10));
    assert_eq!(TtyJobCtrlManager::tiocsctty(&mut pcb, &mut tty), Ok(0));
}

#[test]
fn check_is_switched_off() {
    let tty = terminal(1, Some(10), Some(99));
    assert_eq!(TtyJobCtrlManager::tty_check_change(&tty, Signal::SIGTTIN), Ok(()));
    assert_eq!(TtyJobCtrlManager::tty_check_change(&tty, Signal::SIGTTOU), Ok(()));
    assert_eq!(TtyJobCtrlManager::tty_check_change(&tty, Signal::Other(15)), Ok(()));
}

#[test]
fn background_rule() {
    let clear = SignalDisposition { blocked: false, ignored: false };
    let blocked = SignalDisposition { blocked: true, ignored: false };
    let ignored = SignalDisposition { blocked: false, ignored: true };
    let pcb = process(11, 11, 10, Some(1));
    let tty = terminal(1, Some(10), Some(99));
    let check = TtyJobCtrlManager::background_check;
    assert_eq!(
        check(&pcb, &tty, Signal::SIGTTOU, clear, false),
        BackgroundCheck::SignalGroup(Pid::new(11))
    );
    assert_eq!(
        check(&pcb, &tty, Signal::SIGTTOU, clear, true),
        BackgroundCheck::Refuse(SystemError::EIO)
    );
    assert_eq!(
        check(&pcb, &tty, Signal::SIGTTIN, blocked, false),
        BackgroundCheck::Refuse(SystemError::EIO)
    );
    assert_eq!(
        check(&pcb, &tty, Signal::SIGTTIN, ignored, false),
        BackgroundCheck::Refuse(SystemError::EIO)
    );
    assert_eq!(check(&pcb, &tty, Signal::SIGTTOU, blocked, true), BackgroundCheck::Permit);
    assert_eq!(check(&pcb, &tty, Signal::SIGTTOU, ignored, false), BackgroundCheck::Permit);
    assert_eq!(check(&pcb, &tty, Signal::Other(15), blocked, true), BackgroundCheck::Permit);
    assert_eq!(
        check(&pcb, &tty, Signal::Other(15), clear, false),
        BackgroundCheck::SignalGroup(Pid::new(11))
    );
    let other = terminal(2, Some(10), Some(99));
    assert_eq!(check(&pcb, &other, Signal::SIGTTOU, clear, false), BackgroundCheck::Permit);
    let own = terminal(1, Some(10), Some(11));
    assert_eq!(check(&pcb, &own, Signal::SIGTTIN, clear, true), BackgroundCheck::Permit);
    let nobody = terminal(1, Some(10), None);
    assert_eq!(check(&pcb, &nobody, Signal::SIGTTIN, clear, true), BackgroundCheck::Permit);
}

#[test]
fn signalled_group_restarts() {
    let mut pcb = process(11, 11, 10, Some(1));
    assert_eq!(
        TtyJobCtrlManager::group_signalled(&mut pcb, Err(SystemError::ESRCH)),
        SystemError::ESRCH
    );
    assert!(!pcb.has_pending_signal);
    assert_eq!(
        TtyJobCtrlManager::group_signalled(&mut pcb, Ok(())),
        SystemError::ERESTARTSYS
    );
    assert!(pcb.has_pending_signal);
}

#[test]
fn unknown_command_is_refused() {
    let mut pcb = process(10, 10, 10, Some(1));
    let mut tty = terminal(1, Some(10), Some(10));
    assert_eq!(
        done(TtyJobCtrlManager::job_ctrl_ioctl(&mut pcb, &mut tty, 0x5401, 0)),
        Err(SystemError::ENOIOCTLCMD)
    );
}

#[test]
fn asking_for_a_terminal() {
    let mut leader = process(10, 10, 10, None);
    let mut own = terminal(1, Some(10), None);
    let cmd = TtyIoctlCmd::TIOCSCTTY;
    assert_eq!(cmd, 0x540E);
    assert_eq!(done(TtyJobCtrlManager::job_ctrl_ioctl(&mut leader, &mut own, cmd, 0)), Ok(0));
    let mut foreign = terminal(2, Some(20), Some(20));
    assert_eq!(
        done(TtyJobCtrlManager::job_ctrl_ioctl(&mut leader, &mut foreign, cmd, 0)),
        Err(SystemError::EPERM)
    );
    let mut member = process(11, 10, 10, None);
    let mut free = terminal(3, None, None);
    assert_eq!(
        done(TtyJobCtrlManager::job_ctrl_ioctl(&mut member, &mut free, cmd, 0)),
        Err(SystemError::EPERM)
    );
    assert_eq!(free.ctrl.session, None);
    assert_eq!(member.tty, None);
}

#[test]
fn asking_for_the_foreground_group() {
    let mut pcb = process(11, 11, 10, None);
    let mut tty = terminal(1, None, None);
    match TtyJobCtrlManager::job_ctrl_ioctl(&mut pcb, &mut tty, 0x540F, 0x8000) {
        JobCtrlAction::WriteUser { addr, value } => {
            assert_eq!(addr, 0x8000);
            assert_eq!(value, 0);
        }
        _ => panic!("nothing to write"),
    }
    tty.ctrl.pgid = Some(Pid::new(77));
    assert_eq!(TtyJobCtrlManager::tiocgpgrp(&pcb, &tty), Ok(77));
    pcb.tty = Some(TtyId { id: 2 });
    assert_eq!(
        done(TtyJobCtrlManager::job_ctrl_ioctl(&mut pcb, &mut tty, 0x540F, 0x8000)),
        Err(SystemError::ENOTTY)
    );
}

#[test]
fn asking_for_the_session() {
    let mut pcb = process(11, 11, 10, Some(1));
    let mut tty = terminal(1, Some(10), None);
    match TtyJobCtrlManager::job_ctrl_ioctl(&mut pcb, &mut tty, 0x5429, 0x8000) {
        JobCtrlAction::WriteUser { addr, value } => {
            assert_eq!(addr, 0x8000);
            assert_eq!(value, 10);
        }
        _ => panic!("nothing to write"),
    }
    tty.ctrl.session = None;
    assert_eq!(TtyJobCtrlManager::tiocgsid(&pcb, &tty), Err(SystemError::ENOTTY));
    tty.ctrl.session = Some(Pid::new(10));
    pcb.tty = Some(TtyId { id: 2 });
    assert_eq!(TtyJobCtrlManager::tiocgsid(&pcb, &tty), Err(SystemError::ENOTTY));
}

#[test]
fn user_memory_faults_are_passed_on() {
    assert_eq!(TtyJobCtrlManager::user_written(Ok(())), Ok(0));
    assert_eq!(
        TtyJobCtrlManager::user_written(Err(SystemError::EFAULT)),
        Err(SystemError::EFAULT)
    );
}

#[test]
fn setting_the_foreground_group() {
    let mut pcb = process(10, 10, 10, Some(1));
    let mut tty = terminal(1, Some(10), Some(10));
    match TtyJobCtrlManager::job_ctrl_ioctl(&mut pcb, &mut tty, 0x5410, 0x9000) {
        JobCtrlAction::ReadGroup { addr } => assert_eq!(addr, 0x9000),
        _ => panic!("nothing to read"),
    }
    assert_eq!(TtyJobCtrlManager::tiocspgrp(&pcb, &mut tty, Ok(12), group(12, 10)), Ok(0));
    assert_eq!(tty.ctrl.pgid, Some(Pid::new(12)));
    assert_eq!(tty.ctrl.session, Some(Pid::new(10)));
    assert_eq!(TtyJobCtrlManager::tiocgpgrp(&pcb, &tty), Ok(12));
}

#[test]
fn negative_group_numbers_come_back() {
    let pcb = process(10, 10, 10, Some(1));
    let mut tty = terminal(1, Some(10), Some(10));
    let pgid = -5i32 as usize;
    assert_eq!(TtyJobCtrlManager::tiocspgrp(&pcb, &mut tty, Ok(-5), group(pgid, 10)), Ok(0));
    assert_eq!(tty.ctrl.pgid, Some(Pid::new(pgid)));
    assert_eq!(TtyJobCtrlManager::tiocgpgrp(&pcb, &tty), Ok(-5));
}

#[test]
fn refusals_of_setting_the_foreground_group() {
    let pcb = process(10, 10, 10, Some(1));
    let mut tty = terminal(1, Some(10), Some(10));
    let set = TtyJobCtrlManager::tiocspgrp;
    assert_eq!(
        set(&pcb, &mut tty, Err(SystemError::EFAULT), None),
        Err(SystemError::EFAULT)
    );
    assert_eq!(set(&pcb, &mut tty, Ok(12), None), Err(SystemError::ESRCH));
    assert_eq!(set(&pcb, &mut tty, Ok(12), group(12, 20)), Err(SystemError::EPERM));
    assert_eq!(tty.ctrl.pgid, Some(Pid::new(10)));
    let stranger = process(10, 10, 10, None);
    assert_eq!(set(&stranger, &mut tty, Ok(12), None), Err(SystemError::ENOTTY));
    let elsewhere = process(10, 10, 10, Some(2));
    assert_eq!(set(&elsewhere, &mut tty, Ok(12), group(12, 10)), Err(SystemError::ENOTTY));
    let mut free = terminal(1, None, None);
    assert_eq!(set(&pcb, &mut free, Ok(12), group(12, 10)), Err(SystemError::ENOTTY));
    let mut other = terminal(1, Some(20), None);
    assert_eq!(set(&pcb, &mut other, Ok(12), group(12, 10)), Err(SystemError::ENOTTY));
}

#[test]
fn failed_check_is_no_terminal() {
    let checked = TtyJobCtrlManager::tiocspgrp_checked;
    assert_eq!(checked(Ok(())), Ok(()));
    assert_eq!(checked(Err(SystemError::EIO)), Err(SystemError::ENOTTY));
    assert_eq!(checked(Err(SystemError::ERESTARTSYS)), Err(SystemError::ERESTARTSYS));
    assert_eq!(checked(Err(SystemError::Other(4))), Err(SystemError::Other(4)));
}
