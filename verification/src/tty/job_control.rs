//! Job control of a terminal: which session and which foreground process group
//! it belongs to.
//!
//! User memory and the table of process groups lie outside. A request that
//! needs them is answered with a [`JobCtrlAction`]; the caller performs it and
//! comes back with the outcome.

use crate::error::SystemError;
use crate::process::pcb::{Pgid, Pid, ProcessControlBlock, ProcessGroup, Sid, TtyId};
use vstd::prelude::*;

verus! {

/// The I/O control commands of job control.
pub struct TtyIoctlCmd;

impl TtyIoctlCmd {
    /// Make the terminal the controlling terminal of the caller.
    pub const TIOCSCTTY: u32 = 0x540E;

    /// Get the foreground process group.
    pub const TIOCGPGRP: u32 = 0x540F;

    /// Set the foreground process group.
    pub const TIOCSPGRP: u32 = 0x5410;

    /// Get the session.
    pub const TIOCGSID: u32 = 0x5429;
}

/// The signals that a terminal sends to background processes, and any other.
#[derive(Clone, Copy, Debug, PartialEq, Eq, Structural)]
pub enum Signal {
    /// Background read.
    SIGTTIN,
    /// Background write.
    SIGTTOU,
    /// The signal of this number.
    Other(u32),
}

/// To whom a terminal belongs.
#[derive(Clone, Copy, Debug)]
pub struct TtyControlInfo {
    pub session: Option<Sid>,
    pub pgid: Option<Pgid>,
}

impl TtyControlInfo {
    /// Hand the terminal to the session and process group of `pcb`.
    pub fn set_by_pcb(&mut self, pcb: &ProcessControlBlock)
        ensures
            final(self).session == Some(pcb.sid),
            final(self).pgid == Some(pcb.pgid),
    {
        self.session = Some(pcb.sid);
        self.pgid = Some(pcb.pgid);
    }
}

/// A terminal.
#[derive(Clone, Copy, Debug)]
pub struct TtyCore {
    pub id: TtyId,
    pub ctrl: TtyControlInfo,
}

/// What is to be done next for a request.
#[derive(Clone, Copy, Debug)]
pub enum JobCtrlAction {
    /// Nothing: the request ends with this result.
    Done(Result<usize, SystemError>),
    /// Write `value` to user memory at `addr`, then call
    /// [`TtyJobCtrlManager::user_written`].
    WriteUser { addr: usize, value: i32 },
    /// Read the number of a process group from user memory at `addr`, look
    /// that group up, then call [`TtyJobCtrlManager::tiocspgrp`].
    ReadGroup { addr: usize },
}

/// How the current process treats a signal.
#[derive(Clone, Copy, Debug)]
pub struct SignalDisposition {
    /// The process blocks the signal.
    pub blocked: bool,
    /// The process ignores the signal.
    pub ignored: bool,
}

/// What the background check asks for.
#[derive(Clone, Copy, Debug, PartialEq, Eq, Structural)]
pub enum BackgroundCheck {
    /// The access may go on.
    Permit,
    /// The access fails.
    Refuse(SystemError),
    /// Send the signal to this process group, then call
    /// [`TtyJobCtrlManager::group_signalled`].
    SignalGroup(Pgid),
}

/// The process has a controlling terminal, and it is another one.
pub open spec fn foreign_tty(current: ProcessControlBlock, tty: TtyCore) -> bool {
    current.tty is Some && current.tty != Some(tty.id)
}

/// The terminal is the controlling terminal of the process and belongs to the
/// session of the process.
pub open spec fn controls(current: ProcessControlBlock, tty: TtyCore) -> bool {
    current.tty == Some(tty.id) && tty.ctrl.session == Some(current.sid)
}

/// The process is in the background of its terminal: another process group is
/// in the foreground.
pub open spec fn in_background(current: ProcessControlBlock, tty: TtyCore) -> bool {
    tty.ctrl.pgid is Some && tty.ctrl.pgid != Some(current.pgid)
}

/// The number of a process, process group or session as user memory holds it.
pub open spec fn user_number(pid: Pid) -> i32 {
    pid.data as i32
}

/// The process group whose number user memory holds.
pub open spec fn group_number(pgrp: i32) -> Pgid {
    Pid { data: pgrp as usize }
}

/// The foreground process group as a process is told it; no group is told as
/// number 0.
pub open spec fn foreground(tty: TtyCore) -> i32 {
    match tty.ctrl.pgid {
        Some(pgid) => user_number(pgid),
        None => 0,
    }
}

/// The result of asking for a terminal.
pub open spec fn acquire_result(
    current: ProcessControlBlock,
    tty: TtyCore,
) -> Result<usize, SystemError> {
    if current.session_leader && tty.ctrl.session == Some(current.sid) {
        Ok(0)
    } else {
        Err(SystemError::EPERM)
    }
}

/// The result of asking for the foreground process group.
pub open spec fn get_group_result(
    current: ProcessControlBlock,
    tty: TtyCore,
) -> Result<i32, SystemError> {
    if foreign_tty(current, tty) {
        Err(SystemError::ENOTTY)
    } else {
        Ok(foreground(tty))
    }
}

/// The result of asking for the session.
pub open spec fn get_session_result(
    current: ProcessControlBlock,
    tty: TtyCore,
) -> Result<i32, SystemError> {
    match tty.ctrl.session {
        Some(sid) if !foreign_tty(current, tty) => Ok(user_number(sid)),
        _ => Err(SystemError::ENOTTY),
    }
}

/// The result of setting the foreground process group, given what was read
/// from user memory and the group found under that number.
pub open spec fn set_group_result(
    current: ProcessControlBlock,
    tty: TtyCore,
    pgrp: Result<i32, SystemError>,
    group: Option<ProcessGroup>,
) -> Result<usize, SystemError> {
    match (pgrp, group) {
        (Err(e), _) => Err(e),
        (Ok(_), _) if !controls(current, tty) => Err(SystemError::ENOTTY),
        (Ok(_), None) => Err(SystemError::ESRCH),
        (Ok(_), Some(group)) => if group.session == current.session {
            Ok(0)
        } else {
            Err(SystemError::EPERM)
        },
    }
}

/// The terminal with another foreground process group.
pub open spec fn with_foreground(tty: TtyCore, pgid: Pgid) -> TtyCore {
    TtyCore {
        id: tty.id,
        ctrl: TtyControlInfo { session: tty.ctrl.session, pgid: Some(pgid) },
    }
}

/// The terminal in the hands of a process.
pub open spec fn owned_by(tty: TtyCore, pcb: ProcessControlBlock) -> TtyCore {
    TtyCore {
        id: tty.id,
        ctrl: TtyControlInfo { session: Some(pcb.sid), pgid: Some(pcb.pgid) },
    }
}

/// What a background access leads to.
pub open spec fn background_result(
    current: ProcessControlBlock,
    tty: TtyCore,
    sig: Signal,
    disposition: SignalDisposition,
    orphaned: bool,
) -> BackgroundCheck {
    if foreign_tty(current, tty) || !in_background(current, tty) {
        BackgroundCheck::Permit
    } else if disposition.blocked || disposition.ignored {
        if sig is SIGTTIN {
            BackgroundCheck::Refuse(SystemError::EIO)
        } else {
            BackgroundCheck::Permit
        }
    } else if orphaned {
        BackgroundCheck::Refuse(SystemError::EIO)
    } else {
        BackgroundCheck::SignalGroup(current.pgid)
    }
}

/// What a request leads to first.
pub open spec fn first_action(
    current: ProcessControlBlock,
    tty: TtyCore,
    cmd: u32,
    arg: usize,
) -> JobCtrlAction {
    if cmd == TtyIoctlCmd::TIOCSPGRP {
        JobCtrlAction::ReadGroup { addr: arg }
    } else if cmd == TtyIoctlCmd::TIOCGPGRP {
        match get_group_result(current, tty) {
            Ok(value) => JobCtrlAction::WriteUser { addr: arg, value },
            Err(e) => JobCtrlAction::Done(Err(e)),
        }
    } else if cmd == TtyIoctlCmd::TIOCGSID {
        match get_session_result(current, tty) {
            Ok(value) => JobCtrlAction::WriteUser { addr: arg, value },
            Err(e) => JobCtrlAction::Done(Err(e)),
        }
    } else if cmd == TtyIoctlCmd::TIOCSCTTY {
        JobCtrlAction::Done(acquire_result(current, tty))
    } else {
        JobCtrlAction::Done(Err(SystemError::ENOIOCTLCMD))
    }
}

pub struct TtyJobCtrlManager;

impl TtyJobCtrlManager {
    /// Make `tty` the controlling terminal of the process `pcb`.
    pub fn proc_set_tty(tty: &mut TtyCore, pcb: &mut ProcessControlBlock)
        ensures
            *final(tty) == owned_by(*old(tty), *old(pcb)),
            *final(pcb) == (ProcessControlBlock { tty: Some(old(tty).id), ..*old(pcb) }),
    {
        tty.ctrl.set_by_pcb(&*pcb);
        pcb.tty = Some(tty.id);
    }

    /// Check an access to the terminal. The check is switched off: every
    /// access is permitted. [`background_check`](Self::background_check) is
    /// the rule without the switch.
    pub fn tty_check_change(_tty: &TtyCore, _sig: Signal) -> (checked: Result<(), SystemError>)
        ensures
            checked == Ok::<(), SystemError>(()),
    {
        Ok(())
    }

    /// The rule for an access from the background: `sig` is due to the process
    /// group of `current`, unless the process blocks or ignores it or the
    /// group is orphaned.
    pub fn background_check(
        current: &ProcessControlBlock,
        tty: &TtyCore,
        sig: Signal,
        disposition: SignalDisposition,
        orphaned: bool,
    ) -> (check: BackgroundCheck)
        ensures
            check == background_result(*current, *tty, sig, disposition, orphaned),
    {
        if let Some(own) = current.tty {
            if own != tty.id {
                return BackgroundCheck::Permit;
            }
        }
        if let Some(tty_pgid) = tty.ctrl.pgid {
            if tty_pgid != current.pgid {
                if disposition.blocked || disposition.ignored {
                    if sig == Signal::SIGTTIN {
                        return BackgroundCheck::Refuse(SystemError::EIO);
                    }
                } else if orphaned {
                    return BackgroundCheck::Refuse(SystemError::EIO);
                } else {
                    return BackgroundCheck::SignalGroup(current.pgid);
                }
            }
        }
        BackgroundCheck::Permit
    }

    /// The access fails once the signal was sent: it is restarted after the
    /// signal was handled. Where the signal could not be sent, it fails for
    /// that reason.
    pub fn group_signalled(
        current: &mut ProcessControlBlock,
        sent: Result<(), SystemError>,
    ) -> (error: SystemError)
        ensures
            sent matches Err(e) ==> error == e && *final(current) == *old(current),
            sent is Ok ==> error == SystemError::ERESTARTSYS && *final(current) == (
            ProcessControlBlock { has_pending_signal: true, ..*old(current) }),
    {
        match sent {
            Err(e) => e,
            Ok(()) => {
                current.has_pending_signal = true;
                SystemError::ERESTARTSYS
            },
        }
    }

    /// Serve one job-control request up to the first access to user memory.
    ///
    /// A session leader may ask for a terminal only where the terminal belongs
    /// to a session.
    pub fn job_ctrl_ioctl(
        current: &mut ProcessControlBlock,
        real_tty: &mut TtyCore,
        cmd: u32,
        arg: usize,
    ) -> (action: JobCtrlAction)
        requires
            cmd == TtyIoctlCmd::TIOCSCTTY && old(current).session_leader ==> old(
                real_tty,
            ).ctrl.session is Some,
        ensures
            action == first_action(*old(current), *old(real_tty), cmd, arg),
            *final(current) == *old(current),
            *final(real_tty) == *old(real_tty),
    {
        if cmd == TtyIoctlCmd::TIOCSPGRP {
            let check = TtyJobCtrlManager::tty_check_change(real_tty, Signal::SIGTTOU);
            match TtyJobCtrlManager::tiocspgrp_checked(check) {
                Ok(()) => JobCtrlAction::ReadGroup { addr: arg },
                Err(e) => JobCtrlAction::Done(Err(e)),
            }
        } else if cmd == TtyIoctlCmd::TIOCGPGRP {
            match TtyJobCtrlManager::tiocgpgrp(current, real_tty) {
                Ok(value) => JobCtrlAction::WriteUser { addr: arg, value },
                Err(e) => JobCtrlAction::Done(Err(e)),
            }
        } else if cmd == TtyIoctlCmd::TIOCGSID {
            match TtyJobCtrlManager::tiocgsid(current, real_tty) {
                Ok(value) => JobCtrlAction::WriteUser { addr: arg, value },
                Err(e) => JobCtrlAction::Done(Err(e)),
            }
        } else if cmd == TtyIoctlCmd::TIOCSCTTY {
            JobCtrlAction::Done(TtyJobCtrlManager::tiocsctty(current, real_tty))
        } else {
            JobCtrlAction::Done(Err(SystemError::ENOIOCTLCMD))
        }
    }

    /// The result of a request whose answer was written to user memory.
    pub fn user_written(written: Result<(), SystemError>) -> (result: Result<usize, SystemError>)
        ensures
            written is Ok ==> result == Ok::<usize, SystemError>(0),
            written matches Err(e) ==> result == Err::<usize, SystemError>(e),
    {
        match written {
            Ok(()) => Ok(0),
            Err(e) => Err(e),
        }
    }

    /// Make the terminal the controlling terminal of the current process.
    ///
    /// A session leader whose session owns the terminal has it already. Any
    /// other process, and any other terminal that belongs to a session, is
    /// refused. A session leader may ask only where the terminal belongs to a
    /// session; so the terminal never changes hands here.
    pub fn tiocsctty(
        current: &mut ProcessControlBlock,
        real_tty: &mut TtyCore,
    ) -> (result: Result<usize, SystemError>)
        requires
            old(current).session_leader ==> old(real_tty).ctrl.session is Some,
        ensures
            result == acquire_result(*old(current), *old(real_tty)),
            *final(current) == *old(current),
            *final(real_tty) == *old(real_tty),
    {
        if current.is_session_leader() && real_tty.ctrl.session.unwrap() == current.sid {
            return Ok(0);
        }
        if !current.is_session_leader() || current.tty.is_some() {
            return Err(SystemError::EPERM);
        }
        if real_tty.ctrl.session.is_some() {
            return Err(SystemError::EPERM);
        }
        TtyJobCtrlManager::proc_set_tty(real_tty, current);
        Ok(0)
    }

    /// The number of the foreground process group, for user memory.
    pub fn tiocgpgrp(
        current: &ProcessControlBlock,
        real_tty: &TtyCore,
    ) -> (pgrp: Result<i32, SystemError>)
        ensures
            pgrp == get_group_result(*current, *real_tty),
    {
        if current.tty.is_some() && current.tty.unwrap() != real_tty.id {
            return Err(SystemError::ENOTTY);
        }
        let pgid = real_tty.ctrl.pgid.unwrap_or(Pid::new(0));
        assert(0usize as i32 == 0i32) by (bit_vector);
        Ok(
            #[verifier::truncate]
            (pgid.data() as i32),
        )
    }

    /// The number of the session, for user memory.
    pub fn tiocgsid(
        current: &ProcessControlBlock,
        real_tty: &TtyCore,
    ) -> (sid: Result<i32, SystemError>)
        ensures
            sid == get_session_result(*current, *real_tty),
    {
        if current.tty.is_some() && current.tty.unwrap() != real_tty.id {
            return Err(SystemError::ENOTTY);
        }
        if real_tty.ctrl.session.is_none() {
            return Err(SystemError::ENOTTY);
        }
        let sid = real_tty.ctrl.session.unwrap_or(Pid::new(0));
        Ok(
            #[verifier::truncate]
            (sid.data() as i32),
        )
    }

    /// The outcome of the check as setting the foreground process group
    /// reports it.
    pub fn tiocspgrp_checked(
        check: Result<(), SystemError>,
    ) -> (checked: Result<(), SystemError>)
        ensures
            check is Ok ==> checked == Ok::<(), SystemError>(()),
            check matches Err(e) ==> checked == Err::<(), SystemError>(
                if e is EIO {
                    SystemError::ENOTTY
                } else {
                    e
                },
            ),
    {
        match check {
            Ok(()) => Ok(()),
            Err(e) => {
                if e == SystemError::EIO {
                    return Err(SystemError::ENOTTY);
                }
                Err(e)
            },
        }
    }

    /// Set the foreground process group of the terminal.
    ///
    /// `pgrp` is what user memory held; `group` is the process group of that
    /// number, if there is one. A group that is found, and a process that
    /// controls the terminal, must belong to a session.
    pub fn tiocspgrp(
        current: &ProcessControlBlock,
        real_tty: &mut TtyCore,
        pgrp: Result<i32, SystemError>,
        group: Option<ProcessGroup>,
    ) -> (result: Result<usize, SystemError>)
        requires
            pgrp is Ok && group is Some ==> group->0.pgid == group_number(pgrp->Ok_0),
            pgrp is Ok && controls(*current, *old(real_tty)) && group is Some
                ==> current.session is Some && group->0.session is Some,
        ensures
            result == set_group_result(*current, *old(real_tty), pgrp, group),
            result is Ok ==> *final(real_tty) == with_foreground(
                *old(real_tty),
                group_number(pgrp->Ok_0),
            ),
            result is Err ==> *final(real_tty) == *old(real_tty),
    {
        let pgrp: i32 = match pgrp {
            Ok(pgrp) => pgrp,
            Err(e) => {
                return Err(e);
            },
        };
        if current.tty.is_none() || current.tty.unwrap() != real_tty.id
            || real_tty.ctrl.session.is_none() || real_tty.ctrl.session.unwrap() != current.sid {
            return Err(SystemError::ENOTTY);
        }
        match group {
            None => {
                return Err(SystemError::ESRCH);
            },
            Some(group) => {
                if group.session.unwrap() != current.session.unwrap() {
                    return Err(SystemError::EPERM);
                }
            },
        }
        real_tty.ctrl.pgid = Some(
            Pid::new(
                #[verifier::truncate]
                (pgrp as usize),
            ),
        );
        Ok(0)
    }
}

/// A number from user memory survives the way into a process group number and
/// back.
pub proof fn law_group_number_round_trip(pgrp: i32)
    ensures
        user_number(group_number(pgrp)) == pgrp,
{
    assert((pgrp as usize) as i32 == pgrp) by (bit_vector);
}

/// Once a process set the foreground process group, it is told that number
/// when it asks.
pub proof fn law_get_returns_what_was_set(
    current: ProcessControlBlock,
    tty: TtyCore,
    pgrp: i32,
    group: Option<ProcessGroup>,
)
    requires
        set_group_result(current, tty, Ok(pgrp), group) is Ok,
    ensures
        get_group_result(current, with_foreground(tty, group_number(pgrp))) == Ok::<
            i32,
            SystemError,
        >(pgrp),
        get_session_result(current, with_foreground(tty, group_number(pgrp)))
            == get_session_result(current, tty),
{
    law_group_number_round_trip(pgrp);
}

/// Only a group that exists and is of the caller's own session can be put into
/// the foreground, and only on the terminal that the caller's session controls.
pub proof fn law_foreground_stays_in_session(
    current: ProcessControlBlock,
    tty: TtyCore,
    pgrp: Result<i32, SystemError>,
    group: Option<ProcessGroup>,
)
    requires
        pgrp is Ok && group is Some ==> group->0.pgid == group_number(pgrp->Ok_0),
        set_group_result(current, tty, pgrp, group) is Ok,
    ensures
        controls(current, tty),
        pgrp is Ok && group == Some(
            ProcessGroup { pgid: group_number(pgrp->Ok_0), session: current.session },
        ),
{
}

/// A process that was given the terminal controls it: it is told its own
/// session and process group, and a session leader has it for the asking.
pub proof fn law_given_terminal_is_controlled(pcb: ProcessControlBlock, tty: TtyCore)
    ensures
        ({
            let after = ProcessControlBlock { tty: Some(tty.id), ..pcb };
            &&& controls(after, owned_by(tty, pcb))
            &&& !in_background(after, owned_by(tty, pcb))
            &&& get_session_result(after, owned_by(tty, pcb)) == Ok::<i32, SystemError>(
                user_number(pcb.sid),
            )
            &&& get_group_result(after, owned_by(tty, pcb)) == Ok::<i32, SystemError>(
                user_number(pcb.pgid),
            )
            &&& pcb.session_leader ==> acquire_result(after, owned_by(tty, pcb)) == Ok::<
                usize,
                SystemError,
            >(0)
        }),
{
}

/// A process of another terminal learns nothing and changes nothing.
pub proof fn law_foreign_terminal_is_refused(
    current: ProcessControlBlock,
    tty: TtyCore,
    pgrp: i32,
    group: Option<ProcessGroup>,
)
    requires
        foreign_tty(current, tty),
    ensures
        get_group_result(current, tty) == Err::<i32, SystemError>(SystemError::ENOTTY),
        get_session_result(current, tty) == Err::<i32, SystemError>(SystemError::ENOTTY),
        set_group_result(current, tty, Ok(pgrp), group) == Err::<usize, SystemError>(
            SystemError::ENOTTY,
        ),
{
}

/// A foreground process is never stopped by the background rule.
pub proof fn law_foreground_access_is_permitted(
    current: ProcessControlBlock,
    tty: TtyCore,
    sig: Signal,
    disposition: SignalDisposition,
    orphaned: bool,
)
    requires
        tty.ctrl.pgid == Some(current.pgid),
    ensures
        background_result(current, tty, sig, disposition, orphaned) is Permit,
{
}

} // verus!
