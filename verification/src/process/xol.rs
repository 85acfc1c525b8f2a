//! Per-task state of an instruction executing out of line (XOL).
//!
//! This module owns only the task-local lifecycle. Architecture exception code
//! remains responsible for trap-frame interpretation and signal delivery.

use crate::process::xol_protocol::{step_done, XolStep};
use crate::text::{append_bool, append_decimal, bool_text, decimal_digits};
use std::sync::Arc;
use vstd::prelude::*;
use vstd::string::StringExecFns;

verus! {

/// Where one task stands in executing an instruction out of line.
#[derive(Clone, Copy, Debug, PartialEq, Eq, Structural)]
pub enum TaskXolPhase {
    Idle,
    Running,
    Trapped,
}

impl TaskXolPhase {
    /// The number under which a phase is stored.
    pub open spec fn raw(self) -> u8 {
        match self {
            TaskXolPhase::Idle => 0,
            TaskXolPhase::Running => 1,
            TaskXolPhase::Trapped => 2,
        }
    }

    /// The name of a phase.
    pub open spec fn name(self) -> Seq<char> {
        match self {
            TaskXolPhase::Idle => "Idle"@,
            TaskXolPhase::Running => "Running"@,
            TaskXolPhase::Trapped => "Trapped"@,
        }
    }

    /// Read a stored phase back. Only the three stored numbers have a phase.
    pub fn from_raw(raw: u8) -> (phase: Self)
        requires
            raw <= 2,
        ensures
            phase.raw() == raw,
    {
        match raw {
            0 => TaskXolPhase::Idle,
            1 => TaskXolPhase::Running,
            _ => TaskXolPhase::Trapped,
        }
    }

    /// The number under which this phase is stored.
    pub fn as_raw(self) -> (raw: u8)
        ensures
            raw == self.raw(),
    {
        match self {
            TaskXolPhase::Idle => 0,
            TaskXolPhase::Running => 1,
            TaskXolPhase::Trapped => 2,
        }
    }
}

/// A lease on one slot of the task's XOL area.
pub struct XolSlotLease {
    pub offset: usize,
}

impl XolSlotLease {
    /// Offset of the leased slot within the XOL area.
    pub fn offset(&self) -> (offset: usize)
        ensures
            offset == self.offset,
    {
        self.offset
    }
}

/// The resources and original execution context retained while one task is
/// executing an instruction from an XOL slot.
pub struct ActiveXol {
    pub probe_vaddr: usize,
    pub return_addr: usize,
    pub orig_tf: bool,
    pub slot_end: usize,
    pub xol_lease: Arc<XolSlotLease>,
}

impl ActiveXol {
    /// The diagnostic text of an operation: its plain fields and the offset of
    /// the leased slot.
    pub open spec fn text(self) -> Seq<char> {
        "ActiveXol { probe_vaddr: "@ + decimal_digits(self.probe_vaddr as nat)
            + ", return_addr: "@ + decimal_digits(self.return_addr as nat)
            + ", orig_tf: "@ + bool_text(self.orig_tf)
            + ", slot_end: "@ + decimal_digits(self.slot_end as nat)
            + ", xol_slot_offset: "@ + decimal_digits(self.xol_lease.offset as nat)
            + ", .. }"@
    }

    /// Format for diagnostics.
    pub fn fmt(&self) -> (text: String)
        ensures
            text@ == self.text(),
    {
        let mut text = String::from_str("ActiveXol { probe_vaddr: ");
        append_decimal(&mut text, self.probe_vaddr);
        text.append(", return_addr: ");
        append_decimal(&mut text, self.return_addr);
        text.append(", orig_tf: ");
        append_bool(&mut text, self.orig_tf);
        text.append(", slot_end: ");
        append_decimal(&mut text, self.slot_end);
        text.append(", xol_slot_offset: ");
        append_decimal(&mut text, self.xol_lease.offset());
        text.append(", .. }");
        text
    }
}

/// What a [`TaskXolState`] holds: the phase by which exceptions are routed and
/// the operation in flight.
pub struct XolView {
    pub phase: TaskXolPhase,
    pub payload: Option<ActiveXol>,
}

impl XolView {
    /// An active phase has an operation behind it.
    pub open spec fn consistent(self) -> bool {
        !(self.phase is Idle) ==> self.payload is Some
    }

    /// Nothing is in flight, and nothing is about to be published or taken.
    pub open spec fn vacant(self) -> bool {
        self.phase is Idle && self.payload is None
    }

    pub open spec fn with_phase(self, phase: TaskXolPhase) -> XolView {
        XolView { phase, payload: self.payload }
    }

    pub open spec fn with_payload(self, payload: Option<ActiveXol>) -> XolView {
        XolView { phase: self.phase, payload }
    }

    /// The userspace address of the instruction in flight, if there is one.
    pub open spec fn probe_vaddr(self) -> Option<usize> {
        match self.payload {
            Some(active) if !(self.phase is Idle) => Some(active.probe_vaddr),
            _ => None,
        }
    }

    /// The state once `active` was published: only a vacant state accepts it.
    pub open spec fn published(self, active: ActiveXol) -> XolView {
        if self.vacant() {
            XolView { phase: TaskXolPhase::Running, payload: Some(active) }
        } else {
            self
        }
    }

    /// The state once a trap was raised: only a running instruction can trap.
    pub open spec fn trapped(self) -> XolView {
        if self.phase is Running {
            self.with_phase(TaskXolPhase::Trapped)
        } else {
            self
        }
    }

    /// What a consumer obtains: the phase reached and the operation.
    pub open spec fn in_flight(self) -> Option<(TaskXolPhase, ActiveXol)> {
        match self.payload {
            Some(active) if !(self.phase is Idle) => Some((self.phase, active)),
            _ => None,
        }
    }

    /// The state once a consumer took what is in flight.
    pub open spec fn taken(self) -> XolView {
        if self.phase is Idle {
            self
        } else {
            XolView { phase: TaskXolPhase::Idle, payload: None }
        }
    }
}

/// Single source of truth for one task's XOL state.
///
/// `phase` is the exception-routing discriminator. `payload` owns the lease
/// and context. Publication stores the payload before releasing the Running
/// phase; consumers swap the phase before taking the payload. An exception may
/// nest between the two steps of either, so each step is a method of its own
/// and each leaves an active phase with its payload.
pub struct TaskXolState {
    phase: u8,
    payload: Option<ActiveXol>,
}

impl View for TaskXolState {
    type V = XolView;

    closed spec fn view(&self) -> XolView {
        XolView {
            phase: if self.phase == 0 {
                TaskXolPhase::Idle
            } else if self.phase == 1 {
                TaskXolPhase::Running
            } else {
                TaskXolPhase::Trapped
            },
            payload: self.payload,
        }
    }
}

impl TaskXolState {
    #[verifier::type_invariant]
    spec fn well_formed(self) -> bool {
        &&& self.phase <= 2
        &&& self@.consistent()
    }

    /// A task that executes nothing out of line.
    pub fn new() -> (state: Self)
        ensures
            state@ == (XolView { phase: TaskXolPhase::Idle, payload: None }),
    {
        TaskXolState { phase: TaskXolPhase::Idle.as_raw(), payload: None }
    }

    /// The phase by which an exception is routed.
    pub fn phase(&self) -> (phase: TaskXolPhase)
        ensures
            phase == self@.phase,
            self@.consistent(),
    {
        proof {
            use_type_invariant(self);
        }
        TaskXolPhase::from_raw(self.phase)
    }

    /// Return the original userspace instruction address represented by an
    /// active XOL operation.
    ///
    /// Architecture code uses this logical address when a subsystem such as
    /// rseq must reason about the interrupted userspace instruction rather
    /// than the private XOL slot currently stored in the trap frame.
    pub fn active_probe_vaddr(&self) -> (vaddr: Option<usize>)
        ensures
            vaddr == self@.probe_vaddr(),
            vaddr is Some <==> !(self@.phase is Idle),
    {
        proof {
            use_type_invariant(self);
        }
        if self.phase() == TaskXolPhase::Idle {
            return None;
        }
        match &self.payload {
            Some(active) => Some(active.probe_vaddr),
            None => None,
        }
    }

    /// First step of a publication: store the payload, unless an operation is
    /// in flight or a payload is still held.
    pub fn store_payload(&mut self, active: ActiveXol) -> (stored: Result<(), ActiveXol>)
        ensures
            old(self)@.vacant() ==> stored is Ok && final(self)@ == old(self)@.with_payload(
                Some(active),
            ),
            !old(self)@.vacant() ==> stored == Err::<(), ActiveXol>(active) && final(self)@ == old(
                self,
            )@,
            step_done(XolStep::StorePayload(active), old(self)@, final(self)@, stored is Ok),
    {
        if self.phase != TaskXolPhase::Idle.as_raw() || self.payload.is_some() {
            return Err(active);
        }
        self.payload = Some(active);
        Ok(())
    }

    /// Whether a payload is held. Between the two steps of a publication or of
    /// a consumer it is, though the phase is Idle.
    pub fn holds_payload(&self) -> (held: bool)
        ensures
            held == (self@.payload is Some),
    {
        self.payload.is_some()
    }

    /// Second step of a publication: release the Running phase over the
    /// payload that was stored.
    pub fn release_running(&mut self)
        requires
            old(self)@.phase is Idle,
            old(self)@.payload is Some,
        ensures
            final(self)@ == old(self)@.with_phase(TaskXolPhase::Running),
            step_done(XolStep::ReleaseRunning, old(self)@, final(self)@, false),
    {
        self.phase = TaskXolPhase::Running.as_raw();
    }

    /// First step of a consumer: return to Idle and learn the phase that was
    /// reached.
    pub fn swap_idle(&mut self) -> (phase: TaskXolPhase)
        ensures
            phase == old(self)@.phase,
            old(self)@.consistent(),
            final(self)@ == old(self)@.with_phase(TaskXolPhase::Idle),
            step_done(XolStep::SwapIdle, old(self)@, final(self)@, !(phase is Idle)),
    {
        let phase = self.phase();
        self.phase = TaskXolPhase::Idle.as_raw();
        phase
    }

    /// Second step of a consumer: take the payload out, once the phase is Idle.
    pub fn take_payload(&mut self) -> (payload: Option<ActiveXol>)
        requires
            old(self)@.phase is Idle,
        ensures
            payload == old(self)@.payload,
            final(self)@ == old(self)@.with_payload(None),
            step_done(XolStep::TakePayload, old(self)@, final(self)@, false),
    {
        let mut payload: Option<ActiveXol> = None;
        proof {
            use_type_invariant(&*self);
        }
        std::mem::swap(&mut self.payload, &mut payload);
        payload
    }

    /// Turn Running into Trapped; any other phase stays. Tells whether the
    /// phase was Running.
    pub fn exchange_trapped(&mut self) -> (exchanged: bool)
        ensures
            exchanged == (old(self)@.phase is Running),
            final(self)@ == old(self)@.trapped(),
            step_done(XolStep::ExchangeTrapped, old(self)@, final(self)@, false),
    {
        proof {
            use_type_invariant(&*self);
        }
        if self.phase == TaskXolPhase::Running.as_raw() {
            self.phase = TaskXolPhase::Trapped.as_raw();
            true
        } else {
            false
        }
    }

    /// Publish a newly active XOL operation. Refuses to overwrite an existing
    /// lease, which would otherwise make the earlier instruction unrecoverable.
    pub fn publish_running(&mut self, active: ActiveXol) -> (published: Result<(), ActiveXol>)
        ensures
            published is Ok <==> old(self)@.vacant(),
            published is Err ==> published == Err::<(), ActiveXol>(active),
            final(self)@ == old(self)@.published(active),
    {
        match self.store_payload(active) {
            Err(active) => Err(active),
            Ok(()) => {
                self.release_running();
                Ok(())
            },
        }
    }

    /// Mark the active instruction as having raised a synchronous trap.
    /// Repeated calls are idempotent.
    pub fn mark_trapped(&mut self) -> (vaddr: Option<usize>)
        ensures
            vaddr == old(self)@.probe_vaddr(),
            vaddr is Some <==> !(old(self)@.phase is Idle),
            final(self)@ == old(self)@.trapped(),
    {
        loop
            invariant_except_break
                self@ == old(self)@,
            ensures
                !(old(self)@.phase is Idle),
                self@ == old(self)@.trapped(),
            decreases 0int,
        {
            match self.phase() {
                TaskXolPhase::Idle => {
                    return None;
                },
                TaskXolPhase::Trapped => {
                    break;
                },
                TaskXolPhase::Running => {
                    // Fails only where the phase changed since it was read.
                    if self.exchange_trapped() {
                        break;
                    }
                },
            }
        }
        proof {
            use_type_invariant(&*self);
        }
        match &self.payload {
            Some(active) => Some(active.probe_vaddr),
            None => None,
        }
    }

    /// Return to Idle and take the active payload. The returned old phase is
    /// the authoritative classification for completion of the single step.
    pub fn take(&mut self) -> (taken: Option<(TaskXolPhase, ActiveXol)>)
        ensures
            taken == old(self)@.in_flight(),
            taken is Some <==> !(old(self)@.phase is Idle),
            final(self)@ == old(self)@.taken(),
    {
        let phase = self.swap_idle();
        if phase == TaskXolPhase::Idle {
            return None;
        }
        match self.take_payload() {
            Some(active) => Some((phase, active)),
            None => None,
        }
    }

    /// Drop an active XOL operation without modifying an obsolete trap frame,
    /// as required by successful exec and exit. Tells whether there was one.
    pub fn discard(&mut self) -> (existed: bool)
        ensures
            existed == !(old(self)@.phase is Idle),
            final(self)@ == old(self)@.taken(),
    {
        self.take().is_some()
    }

    /// Format for diagnostics: the phase alone.
    pub fn fmt(&self) -> (text: String)
        ensures
            text@ == "TaskXolState { phase: "@ + self@.phase.name() + ", .. }"@,
    {
        let mut text = String::from_str("TaskXolState { phase: ");
        match self.phase() {
            TaskXolPhase::Idle => text.append("Idle"),
            TaskXolPhase::Running => text.append("Running"),
            TaskXolPhase::Trapped => text.append("Trapped"),
        }
        text.append(", .. }");
        text
    }
}

impl Default for TaskXolState {
    fn default() -> (state: Self)
        ensures
            state@ == (XolView { phase: TaskXolPhase::Idle, payload: None }),
    {
        TaskXolState::new()
    }
}

} // verus!
