//! The XOL state under nesting.
//!
//! An exception may arrive between the two steps of a publication or of a
//! consumer and start operations of its own on the same state. This module
//! states what every such interleaving keeps, over the steps that
//! [`TaskXolState`](crate::process::xol::TaskXolState) takes.

use crate::process::xol::{ActiveXol, TaskXolPhase, XolView};
use vstd::prelude::*;

verus! {

/// One step on the shared state.
pub enum XolStep {
    /// `store_payload`
    StorePayload(ActiveXol),
    /// `release_running`, owed after a payload was stored
    ReleaseRunning,
    /// `exchange_trapped`
    ExchangeTrapped,
    /// `swap_idle`
    SwapIdle,
    /// `take_payload`, owed after an active phase was swapped away
    TakePayload,
}

/// The shared state, and which second steps are still owed.
pub struct XolRun {
    pub state: XolView,
    pub publishing: bool,
    pub taking: bool,
}

impl XolRun {
    /// Nothing has happened yet.
    pub open spec fn initial() -> XolRun {
        XolRun {
            state: XolView { phase: TaskXolPhase::Idle, payload: None },
            publishing: false,
            taking: false,
        }
    }

    /// Whether some context may take this step now.
    pub open spec fn enabled(self, step: XolStep) -> bool {
        match step {
            XolStep::ReleaseRunning => self.publishing,
            XolStep::TakePayload => self.taking,
            _ => true,
        }
    }

    /// The run after one step.
    pub open spec fn next(self, step: XolStep) -> XolRun {
        match step {
            XolStep::StorePayload(active) => if self.state.vacant() {
                XolRun {
                    state: self.state.with_payload(Some(active)),
                    publishing: true,
                    taking: self.taking,
                }
            } else {
                self
            },
            XolStep::ReleaseRunning => XolRun {
                state: self.state.with_phase(TaskXolPhase::Running),
                publishing: false,
                taking: self.taking,
            },
            XolStep::ExchangeTrapped => XolRun {
                state: self.state.trapped(),
                publishing: self.publishing,
                taking: self.taking,
            },
            XolStep::SwapIdle => XolRun {
                state: self.state.with_phase(TaskXolPhase::Idle),
                publishing: self.publishing,
                taking: self.taking || !(self.state.phase is Idle),
            },
            XolStep::TakePayload => XolRun {
                state: self.state.with_payload(None),
                publishing: self.publishing,
                taking: false,
            },
        }
    }

    /// What holds between any two steps: at most one second step is owed, it
    /// is owed exactly while an idle state holds a payload, and an active
    /// phase has its payload.
    pub open spec fn coherent(self) -> bool {
        &&& self.state.consistent()
        &&& !(self.publishing && self.taking)
        &&& (self.publishing || self.taking) <==> (self.state.phase is Idle
            && self.state.payload is Some)
    }

    /// Each step of the sequence is enabled when its turn comes.
    pub open spec fn admits(self, steps: Seq<XolStep>) -> bool
        decreases steps.len(),
    {
        steps.len() > 0 ==> self.enabled(steps[0]) && self.next(steps[0]).admits(
            steps.drop_first(),
        )
    }

    /// The run after a sequence of steps.
    pub open spec fn after(self, steps: Seq<XolStep>) -> XolRun
        decreases steps.len(),
    {
        if steps.len() == 0 {
            self
        } else {
            self.next(steps[0]).after(steps.drop_first())
        }
    }
}

/// On a state `before` the step `step` leads to the state `after`, in whatever
/// run it is taken. Where the step is the first of two, `owes` tells whether
/// its context owes the second.
pub open spec fn step_done(step: XolStep, before: XolView, after: XolView, owes: bool) -> bool {
    forall|run: XolRun|
        run.state == before ==> {
            &&& (#[trigger] run.next(step)).state == after
            &&& step is StorePayload ==> run.next(step).publishing == (run.publishing || owes)
            &&& step is SwapIdle ==> run.next(step).taking == (run.taking || owes)
        }
}

/// A second step that is owed can be taken: the state is as the method of that
/// step requires it.
pub proof fn law_owed_step_can_be_taken(run: XolRun, step: XolStep)
    requires
        run.coherent(),
        run.enabled(step),
        step is ReleaseRunning || step is TakePayload,
    ensures
        run.state.phase is Idle,
        run.state.payload is Some,
{
}

/// Every step keeps the invariant, whichever context takes it.
pub proof fn law_step_keeps_invariant(run: XolRun, step: XolStep)
    requires
        run.coherent(),
        run.enabled(step),
    ensures
        run.next(step).coherent(),
{
}

/// The invariant holds from the start and after every interleaving.
pub proof fn law_interleavings_keep_invariant(steps: Seq<XolStep>)
    requires
        XolRun::initial().admits(steps),
    ensures
        XolRun::initial().after(steps).coherent(),
{
    lemma_after_keeps_invariant(XolRun::initial(), steps);
}

proof fn lemma_after_keeps_invariant(run: XolRun, steps: Seq<XolStep>)
    requires
        run.coherent(),
        run.admits(steps),
    ensures
        run.after(steps).coherent(),
    decreases steps.len(),
{
    if steps.len() > 0 {
        lemma_after_keeps_invariant(run.next(steps[0]), steps.drop_first());
    }
}

/// From the start an operation can go through all its steps, and leaves the run
/// as it began.
pub proof fn law_full_cycle_is_possible(active: ActiveXol)
    ensures
        ({
            let start = XolRun::initial();
            let stored = start.next(XolStep::StorePayload(active));
            let running = stored.next(XolStep::ReleaseRunning);
            let trapped = running.next(XolStep::ExchangeTrapped);
            let swapped = trapped.next(XolStep::SwapIdle);
            let taken = swapped.next(XolStep::TakePayload);
            &&& start.state.phase is Idle && start.state.payload is None
            &&& stored.enabled(XolStep::ReleaseRunning)
            &&& stored.state.phase is Idle && stored.state.payload == Some(active)
            &&& running.state.phase is Running && running.state.payload == Some(active)
            &&& trapped.state.phase is Trapped && trapped.state.payload == Some(active)
            &&& swapped.enabled(XolStep::TakePayload)
            &&& swapped.state.phase is Idle && swapped.state.payload == Some(active)
            &&& taken == start
            &&& start.coherent() && stored.coherent() && running.coherent() && trapped.coherent()
                && swapped.coherent()
        }),
{
}

/// A lease in place is never overwritten and never lost: a payload enters only
/// where there was none, leaves only through the step that hands it over, and
/// no other step changes it.
pub proof fn law_payload_changes_hands_once(run: XolRun, step: XolStep)
    requires
        run.coherent(),
        run.enabled(step),
    ensures
        run.next(step).state.payload != run.state.payload ==> match step {
            XolStep::StorePayload(active) => run.state.payload is None
                && run.next(step).state.payload == Some(active),
            XolStep::TakePayload => run.state.payload is Some
                && run.next(step).state.payload is None,
            _ => false,
        },
        step is TakePayload ==> run.state.payload is Some,
        step is ReleaseRunning ==> run.state.payload is Some && run.state.phase is Idle,
{
}

/// A payload stays in place through every interleaving that does not take it.
pub proof fn law_payload_kept_until_taken(run: XolRun, steps: Seq<XolStep>)
    requires
        run.coherent(),
        run.admits(steps),
        run.state.payload is Some,
        forall|i: int| 0 <= i < steps.len() ==> !(#[trigger] steps[i] is TakePayload),
    ensures
        run.after(steps).state.payload == run.state.payload,
    decreases steps.len(),
{
    if steps.len() > 0 {
        let rest = steps.drop_first();
        assert forall|i: int| 0 <= i < rest.len() implies !(#[trigger] rest[i] is TakePayload) by {
            assert(rest[i] == steps[i + 1]);
        }
        law_payload_kept_until_taken(run.next(steps[0]), rest);
    }
}

/// A publication that nests inside another publication or inside a consumer is
/// refused.
pub proof fn law_nested_publication_refused(run: XolRun, active: ActiveXol)
    requires
        run.coherent(),
        run.publishing || run.taking,
    ensures
        !run.state.vacant(),
        run.next(XolStep::StorePayload(active)) == run,
{
}

/// A consumer that nests inside a publication or inside another consumer finds
/// nothing in flight.
pub proof fn law_nested_take_finds_nothing(run: XolRun)
    requires
        run.coherent(),
        run.publishing || run.taking,
    ensures
        run.state.in_flight() is None,
        run.next(XolStep::SwapIdle) == run,
{
}

/// A trap is raised on an operation that is there to be named, and leaves it in
/// place for the consumer.
pub proof fn law_trap_keeps_its_operation(run: XolRun)
    requires
        run.coherent(),
        run.state.phase is Running,
    ensures
        run.next(XolStep::ExchangeTrapped).state.phase is Trapped,
        run.next(XolStep::ExchangeTrapped).state.payload == run.state.payload,
        run.next(XolStep::ExchangeTrapped).state.probe_vaddr() is Some,
{
}

/// The two steps of a publication, taken in a row, are the publication.
pub proof fn law_publication_is_its_steps(run: XolRun, active: ActiveXol)
    requires
        run.coherent(),
        run.state.vacant(),
    ensures
        run.next(XolStep::StorePayload(active)).next(XolStep::ReleaseRunning).state
            == run.state.published(active),
{
}

/// The two steps of a consumer, taken in a row on an active state, take what
/// is in flight.
pub proof fn law_take_is_its_steps(run: XolRun)
    requires
        run.coherent(),
        !(run.state.phase is Idle),
    ensures
        run.state.in_flight() matches Some((phase, active)) && phase == run.state.phase && run.next(
            XolStep::SwapIdle,
        ).state.payload == Some(active),
        run.next(XolStep::SwapIdle).next(XolStep::TakePayload).state == run.state.taken(),
{
}

/// What is published into a vacant state is what the next consumer takes, and
/// it leaves the state vacant. The phase tells whether it trapped meanwhile.
pub proof fn law_publish_then_take(state: XolView, active: ActiveXol)
    requires
        state.vacant(),
    ensures
        state.published(active).in_flight() == Some((TaskXolPhase::Running, active)),
        state.published(active).taken() == state,
        state.published(active).trapped().in_flight() == Some((TaskXolPhase::Trapped, active)),
        state.published(active).trapped().taken() == state,
{
}

/// A second publication changes nothing while the first is in flight.
pub proof fn law_publish_refuses_overwrite(state: XolView, first: ActiveXol, second: ActiveXol)
    ensures
        state.published(first).published(second) == state.published(first),
        !state.published(first).vacant(),
{
}

/// Marking a trap again changes nothing and names the same instruction.
pub proof fn law_mark_trapped_idempotent(state: XolView)
    ensures
        state.trapped().trapped() == state.trapped(),
        state.trapped().probe_vaddr() == state.probe_vaddr(),
{
}

/// After a consumer there is nothing left to take.
pub proof fn law_take_is_final(state: XolView)
    ensures
        state.taken().in_flight() is None,
        state.taken().taken() == state.taken(),
        state.consistent() ==> state.taken().consistent(),
{
}

} // verus!
