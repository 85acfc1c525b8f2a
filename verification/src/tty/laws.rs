//! What job control promises to its callers, said of the calls themselves.

use crate::error::SystemError;
use crate::process::pcb::{ProcessControlBlock, ProcessGroup};
use crate::tty::job_control::{
    BackgroundCheck, JobCtrlAction, Signal, SignalDisposition, TtyControlInfo, TtyCore,
    TtyIoctlCmd, TtyJobCtrlManager,
};
use vstd::prelude::*;

verus! {

/// A process on its own terminal, which its session owns, can put every group
/// of its session into the foreground, whichever group is there now. The
/// terminal keeps its session.
pub proof fn law_owner_may_set_any_group_of_its_session(
    current: ProcessControlBlock,
    tty: &mut TtyCore,
    pgrp: i32,
    group: ProcessGroup,
    result: Result<usize, SystemError>,
)
    requires
        current.tty == Some(old(tty).id),
        old(tty).ctrl.session == Some(current.sid),
        group.session == current.session,
        call_ensures(TtyJobCtrlManager::tiocspgrp, (&current, tty, Ok(pgrp), Some(group)), result),
    ensures
        result == Ok::<usize, SystemError>(0),
        final(tty).ctrl.pgid is Some,
        pgrp >= 0 ==> final(tty).ctrl.pgid->0.data == pgrp,
        pgrp < 0 ==> final(tty).ctrl.pgid->0.data == usize::MAX + 1 + pgrp,
        final(tty).ctrl.session == old(tty).ctrl.session,
        final(tty).id == old(tty).id,
{
    lemma_group_number(pgrp);
}

/// Every refusal of setting the foreground group has its own cause, in this
/// order: user memory could not be read, the terminal is not the caller's, there
/// is no such group, the group is of another session. A refusal changes nothing.
pub proof fn law_refusals_of_setting_the_group(
    current: ProcessControlBlock,
    tty: &mut TtyCore,
    pgrp: Result<i32, SystemError>,
    group: Option<ProcessGroup>,
    result: Result<usize, SystemError>,
)
    requires
        call_ensures(TtyJobCtrlManager::tiocspgrp, (&current, tty, pgrp, group), result),
    ensures
        pgrp matches Err(e) ==> result == Err::<usize, SystemError>(e),
        pgrp is Ok && (current.tty is None || current.tty->0 != old(tty).id) ==> result == Err::<
            usize,
            SystemError,
        >(SystemError::ENOTTY),
        pgrp is Ok && (old(tty).ctrl.session is None || old(tty).ctrl.session->0 != current.sid)
            ==> result == Err::<usize, SystemError>(SystemError::ENOTTY),
        pgrp is Ok && current.tty == Some(old(tty).id) && old(tty).ctrl.session == Some(current.sid)
            && group is None ==> result == Err::<usize, SystemError>(SystemError::ESRCH),
        pgrp is Ok && current.tty == Some(old(tty).id) && old(tty).ctrl.session == Some(current.sid)
            && group is Some && group->0.session != current.session ==> result == Err::<
            usize,
            SystemError,
        >(SystemError::EPERM),
        result is Err ==> *final(tty) == *old(tty),
{
}

/// A process group number as a machine word: the same number if it is not
/// negative, and else the one that stands for it in two's complement.
proof fn lemma_group_number(pgrp: i32)
    ensures
        pgrp >= 0 ==> (pgrp as usize) == pgrp,
        pgrp < 0 ==> (pgrp as usize) == usize::MAX + 1 + pgrp,
{
    assert(pgrp < 0 ==> !(pgrp as usize) == (-1 - pgrp)) by (bit_vector);
    let word = pgrp as usize;
    let largest = usize::MAX;
    assert(!word + word == !0usize) by (bit_vector);
    assert(largest <= !0usize) by (bit_vector);
}

/// The number of a process, process group or session as it is told: the number
/// itself where it fits, and always the same lower half of the word.
proof fn lemma_user_number(data: usize)
    ensures
        data <= i32::MAX ==> (data as i32) == data,
        (data as i32) as u32 == data as u32,
{
    assert(data <= 0x7fff_ffffusize ==> (data as i32) == data) by (bit_vector);
    assert((data as i32) as u32 == data as u32) by (bit_vector);
}

/// A process on a terminal that is not foreign to it is told the foreground
/// group of that terminal, at the address that it gave; where there is no group
/// it is told 0.
pub proof fn law_foreground_group_is_told(
    current: &mut ProcessControlBlock,
    tty: &mut TtyCore,
    arg: usize,
    action: JobCtrlAction,
)
    requires
        old(current).tty is None || old(current).tty == Some(old(tty).id),
        call_ensures(
            TtyJobCtrlManager::job_ctrl_ioctl,
            (current, tty, TtyIoctlCmd::TIOCGPGRP, arg),
            action,
        ),
    ensures
        action matches JobCtrlAction::WriteUser { addr, value } && addr == arg && (match old(tty).ctrl.pgid {
            Some(pgid) => (pgid.data <= i32::MAX ==> value == pgid.data) && value as u32
                == pgid.data as u32,
            None => value == 0,
        }),
        *final(current) == *old(current),
        *final(tty) == *old(tty),
{
    if let Some(pgid) = old(tty).ctrl.pgid {
        lemma_user_number(pgid.data);
    }
}

/// Once a process has set the foreground group, asking for it leads to writing
/// that very number.
pub proof fn law_set_group_is_told(
    current: &mut ProcessControlBlock,
    tty: &mut TtyCore,
    pgrp: i32,
    group: Option<ProcessGroup>,
    result: Result<usize, SystemError>,
    later: &mut TtyCore,
    arg: usize,
    action: JobCtrlAction,
)
    requires
        call_ensures(TtyJobCtrlManager::tiocspgrp, (&*old(current), tty, Ok(pgrp), group), result),
        result is Ok,
        *later == *final(tty),
        call_ensures(
            TtyJobCtrlManager::job_ctrl_ioctl,
            (current, later, TtyIoctlCmd::TIOCGPGRP, arg),
            action,
        ),
    ensures
        action == (JobCtrlAction::WriteUser { addr: arg, value: pgrp }),
{
    assert((pgrp as usize) as i32 == pgrp) by (bit_vector);
}

/// A process on a terminal that is not foreign to it is told the session of that
/// terminal, at the address that it gave. A terminal without a session has none
/// to tell.
pub proof fn law_session_is_told(
    current: &mut ProcessControlBlock,
    tty: &mut TtyCore,
    arg: usize,
    action: JobCtrlAction,
)
    requires
        old(current).tty is None || old(current).tty == Some(old(tty).id),
        call_ensures(
            TtyJobCtrlManager::job_ctrl_ioctl,
            (current, tty, TtyIoctlCmd::TIOCGSID, arg),
            action,
        ),
    ensures
        match old(tty).ctrl.session {
            Some(sid) => action matches JobCtrlAction::WriteUser { addr, value } && addr == arg && (
            sid.data <= i32::MAX ==> value == sid.data) && value as u32 == sid.data as u32,
            None => action == JobCtrlAction::Done(Err(SystemError::ENOTTY)),
        },
        *final(current) == *old(current),
        *final(tty) == *old(tty),
{
    if let Some(sid) = old(tty).ctrl.session {
        lemma_user_number(sid.data);
    }
}

/// A process whose controlling terminal is another one is told neither the
/// foreground group nor the session.
pub proof fn law_foreign_terminal_tells_nothing(
    current: &mut ProcessControlBlock,
    tty: &mut TtyCore,
    cmd: u32,
    arg: usize,
    action: JobCtrlAction,
)
    requires
        old(current).tty is Some && old(current).tty->0 != old(tty).id,
        cmd == TtyIoctlCmd::TIOCGPGRP || cmd == TtyIoctlCmd::TIOCGSID,
        call_ensures(TtyJobCtrlManager::job_ctrl_ioctl, (current, tty, cmd, arg), action),
    ensures
        action == JobCtrlAction::Done(Err(SystemError::ENOTTY)),
        *final(current) == *old(current),
        *final(tty) == *old(tty),
{
}

/// A request to set the foreground group always leads to reading it from the
/// address that was given; a command that job control does not know is refused.
/// No request changes anything before user memory was accessed.
pub proof fn law_requests_are_told_apart(
    current: &mut ProcessControlBlock,
    tty: &mut TtyCore,
    cmd: u32,
    arg: usize,
    action: JobCtrlAction,
)
    requires
        call_ensures(TtyJobCtrlManager::job_ctrl_ioctl, (current, tty, cmd, arg), action),
    ensures
        cmd == 0x5410 ==> action == (JobCtrlAction::ReadGroup { addr: arg }),
        cmd != 0x5410 ==> !(action is ReadGroup),
        cmd != 0x540F && cmd != 0x5429 ==> !(action is WriteUser),
        cmd != 0x540E && cmd != 0x540F && cmd != 0x5410 && cmd != 0x5429 ==> action
            == JobCtrlAction::Done(Err(SystemError::ENOIOCTLCMD)),
        *final(current) == *old(current),
        *final(tty) == *old(tty),
{
}

/// Asking for a terminal succeeds for a session leader whose session owns it,
/// and for nobody else. The request and the operation behind it agree.
pub proof fn law_only_the_owning_leader_gets_the_terminal(
    current: &mut ProcessControlBlock,
    tty: &mut TtyCore,
    arg: usize,
    action: JobCtrlAction,
    direct: &mut ProcessControlBlock,
    direct_tty: &mut TtyCore,
    result: Result<usize, SystemError>,
)
    requires
        call_ensures(
            TtyJobCtrlManager::job_ctrl_ioctl,
            (current, tty, TtyIoctlCmd::TIOCSCTTY, arg),
            action,
        ),
        *direct == *old(current),
        *direct_tty == *old(tty),
        call_ensures(TtyJobCtrlManager::tiocsctty, (direct, direct_tty), result),
    ensures
        action == JobCtrlAction::Done(result),
        old(current).session_leader && old(tty).ctrl.session == Some(old(current).sid) ==> result
            == Ok::<usize, SystemError>(0),
        !old(current).session_leader || old(tty).ctrl.session != Some(old(current).sid) ==> result
            == Err::<usize, SystemError>(SystemError::EPERM),
        *final(direct) == *old(direct),
        *final(direct_tty) == *old(direct_tty),
{
}

/// The operations behind the two questions answer what the requests write.
pub proof fn law_answers_are_what_is_written(
    current: &mut ProcessControlBlock,
    tty: &mut TtyCore,
    arg: usize,
    group_action: JobCtrlAction,
    group: Result<i32, SystemError>,
    other: &mut ProcessControlBlock,
    other_tty: &mut TtyCore,
    session_action: JobCtrlAction,
    session: Result<i32, SystemError>,
)
    requires
        call_ensures(
            TtyJobCtrlManager::job_ctrl_ioctl,
            (current, tty, TtyIoctlCmd::TIOCGPGRP, arg),
            group_action,
        ),
        call_ensures(TtyJobCtrlManager::tiocgpgrp, (&*old(current), &*old(tty)), group),
        call_ensures(
            TtyJobCtrlManager::job_ctrl_ioctl,
            (other, other_tty, TtyIoctlCmd::TIOCGSID, arg),
            session_action,
        ),
        call_ensures(TtyJobCtrlManager::tiocgsid, (&*old(other), &*old(other_tty)), session),
    ensures
        group_action == (match group {
            Ok(value) => JobCtrlAction::WriteUser { addr: arg, value },
            Err(e) => JobCtrlAction::Done(Err(e)),
        }),
        session_action == (match session {
            Ok(value) => JobCtrlAction::WriteUser { addr: arg, value },
            Err(e) => JobCtrlAction::Done(Err(e)),
        }),
        group is Ok <==> old(current).tty is None || old(current).tty->0 == old(tty).id,
        session is Ok <==> old(other_tty).ctrl.session is Some && (old(other).tty is None || old(other).tty->0 == old(other_tty).id),
{
}

/// A process that is given a terminal has it as its controlling terminal, and
/// the terminal belongs to the session and the group of the process. Nothing
/// else changes; the process can then set the group and is told its own.
pub proof fn law_given_terminal_belongs_to_the_process(
    tty: &mut TtyCore,
    pcb: &mut ProcessControlBlock,
    unit: (),
    group: Result<i32, SystemError>,
)
    requires
        call_ensures(TtyJobCtrlManager::proc_set_tty, (tty, pcb), unit),
        call_ensures(TtyJobCtrlManager::tiocgpgrp, (&*final(pcb), &*final(tty)), group),
    ensures
        final(tty).id == old(tty).id,
        final(tty).ctrl.session == Some(old(pcb).sid),
        final(tty).ctrl.pgid == Some(old(pcb).pgid),
        final(pcb).tty == Some(old(tty).id),
        final(pcb).pid == old(pcb).pid,
        final(pcb).pgid == old(pcb).pgid,
        final(pcb).sid == old(pcb).sid,
        final(pcb).session_leader == old(pcb).session_leader,
        final(pcb).session == old(pcb).session,
        final(pcb).has_pending_signal == old(pcb).has_pending_signal,
        final(pcb).execute_path == old(pcb).execute_path,
        final(pcb).uret == old(pcb).uret,
        group is Ok,
        group->Ok_0 as u32 == old(pcb).pgid.data as u32,
        old(pcb).pgid.data <= i32::MAX ==> group->Ok_0 == old(pcb).pgid.data,
{
    lemma_user_number(old(pcb).pgid.data);
}

/// Handing a terminal to a process names the session and the group of the
/// process.
pub proof fn law_owner_is_the_process(
    ctrl: &mut TtyControlInfo,
    pcb: ProcessControlBlock,
    unit: (),
)
    requires
        call_ensures(TtyControlInfo::set_by_pcb, (ctrl, &pcb), unit),
    ensures
        final(ctrl).session == Some(pcb.sid),
        final(ctrl).pgid == Some(pcb.pgid),
{
}

/// The check of an access is switched off, for every signal.
pub proof fn law_access_check_always_passes(
    tty: TtyCore,
    sig: Signal,
    checked: Result<(), SystemError>,
)
    requires
        call_ensures(TtyJobCtrlManager::tty_check_change, (&tty, sig), checked),
    ensures
        checked is Ok,
{
}

/// The background rule. A process on another terminal, or in the foreground, or
/// on a terminal without a foreground group, may go on. From the background a
/// signal that is blocked or ignored leaves only reading to fail; an orphaned
/// group fails; otherwise the signal goes to the group of the process itself.
pub proof fn law_background_rule(
    current: ProcessControlBlock,
    tty: TtyCore,
    sig: Signal,
    disposition: SignalDisposition,
    orphaned: bool,
    check: BackgroundCheck,
)
    requires
        call_ensures(
            TtyJobCtrlManager::background_check,
            (&current, &tty, sig, disposition, orphaned),
            check,
        ),
    ensures
        current.tty is Some && current.tty->0 != tty.id ==> check is Permit,
        tty.ctrl.pgid is None ==> check is Permit,
        tty.ctrl.pgid == Some(current.pgid) ==> check is Permit,
        (current.tty is None || current.tty->0 == tty.id) && tty.ctrl.pgid is Some
            && tty.ctrl.pgid->0 != current.pgid ==> {
            &&& (disposition.blocked || disposition.ignored) && sig is SIGTTIN ==> check
                == BackgroundCheck::Refuse(SystemError::EIO)
            &&& (disposition.blocked || disposition.ignored) && !(sig is SIGTTIN) ==> check is Permit
            &&& !disposition.blocked && !disposition.ignored && orphaned ==> check
                == BackgroundCheck::Refuse(SystemError::EIO)
            &&& !disposition.blocked && !disposition.ignored && !orphaned ==> check
                == BackgroundCheck::SignalGroup(current.pgid)
        },
{
}

/// Once the signal was sent it is pending and the access is restarted. Where it
/// could not be sent, the access fails for that reason and nothing is pending
/// that was not. Nothing else changes.
pub proof fn law_sent_signal_is_pending(
    current: &mut ProcessControlBlock,
    sent: Result<(), SystemError>,
    error: SystemError,
)
    requires
        call_ensures(TtyJobCtrlManager::group_signalled, (current, sent), error),
    ensures
        sent is Ok ==> error == SystemError::ERESTARTSYS && final(current).has_pending_signal,
        sent matches Err(e) ==> error == e && final(current).has_pending_signal == old(current).has_pending_signal,
        final(current).pid == old(current).pid,
        final(current).pgid == old(current).pgid,
        final(current).sid == old(current).sid,
        final(current).session_leader == old(current).session_leader,
        final(current).session == old(current).session,
        final(current).tty == old(current).tty,
        final(current).execute_path == old(current).execute_path,
        final(current).uret == old(current).uret,
{
}

/// The outcome of an access to user memory is passed on, and so is that of the
/// check before setting the group, but that EIO there means no terminal.
pub proof fn law_outcomes_are_passed_on(
    written: Result<(), SystemError>,
    result: Result<usize, SystemError>,
    check: Result<(), SystemError>,
    checked: Result<(), SystemError>,
)
    requires
        call_ensures(TtyJobCtrlManager::user_written, (written,), result),
        call_ensures(TtyJobCtrlManager::tiocspgrp_checked, (check,), checked),
    ensures
        written is Ok ==> result == Ok::<usize, SystemError>(0),
        written matches Err(e) ==> result == Err::<usize, SystemError>(e),
        check is Ok <==> checked is Ok,
        check matches Err(e) ==> (!(e is EIO) ==> checked == Err::<(), SystemError>(e)),
        check == Err::<(), SystemError>(SystemError::EIO) ==> checked == Err::<(), SystemError>(
            SystemError::ENOTTY,
        ),
{
}

} // verus!
