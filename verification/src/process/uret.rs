//! The uretprobe return-instance chain of one task.

use crate::process::frames::{FrameStack, SpareSlot};
use crate::text::{append_bool, append_decimal};
use std::sync::Arc;
use vstd::prelude::*;
use vstd::string::StringExecFns;

verus! {

/// Depth cap of the uretprobe return-instance chain.
///
/// When the cap is reached the new hijack is abandoned and the existing chain
/// is unaffected: for a recursive function deeper than 64 frames, returns from
/// the 65th frame onward no longer fire callbacks.
pub const MAX_URETPROBE_DEPTH: usize = 64;

/// One registered recipient of return events, found again by its number.
pub struct UprobeParticipantNode {
    pub id: usize,
}

/// One hijacked function return.
///
/// Pushed on an entry hit, after the return address is successfully hijacked;
/// popped in groups when the function return lands on the trampoline.
pub struct ReturnInstance {
    /// Entry address of the probed function.
    pub func: usize,
    /// User stack pointer at hijack time: the address of the return-address
    /// slot.
    pub stack: usize,
    /// Original return address before hijacking. Chained instances share the
    /// same value as the chain head.
    pub orig_ret_vaddr: usize,
    /// The return-address slot already held the trampoline when pushed (tail
    /// call or recursion reusing the same stack slot).
    pub chained: bool,
    /// Participant snapshot pinned at hijack time.
    pub participants: Option<Arc<UprobeParticipantNode>>,
}

impl ReturnInstance {
    /// The diagnostic text of an instance: everything but its participants.
    pub open spec fn text(self) -> Seq<char> {
        "ReturnInstance { func: "@ + crate::text::decimal_digits(self.func as nat)
            + ", stack: "@ + crate::text::decimal_digits(self.stack as nat)
            + ", orig_ret_vaddr: "@ + crate::text::decimal_digits(self.orig_ret_vaddr as nat)
            + ", chained: "@ + crate::text::bool_text(self.chained)
            + ", .. }"@
    }

    /// Format for diagnostics.
    pub fn fmt(&self) -> (text: String)
        ensures
            text@ == self.text(),
    {
        let mut text = String::from_str("ReturnInstance { func: ");
        append_decimal(&mut text, self.func);
        text.append(", stack: ");
        append_decimal(&mut text, self.stack);
        text.append(", orig_ret_vaddr: ");
        append_decimal(&mut text, self.orig_ret_vaddr);
        text.append(", chained: ");
        append_bool(&mut text, self.chained);
        text.append(", .. }");
        text
    }
}

/// Liveness-check context for uretprobe frames.
#[derive(Clone, Copy, Debug, PartialEq, Eq, Structural)]
pub enum UretAliveCheck {
    /// Just executed a call (the stack pointer was just pushed down): alive iff
    /// `rsp < ri.stack`.
    Call,
    /// Trampoline hit or chained re-entry: alive iff `rsp <= ri.stack`.
    Ret,
}

impl UretAliveCheck {
    /// Whether a frame is alive at stack pointer `rsp`.
    pub open spec fn alive(self, ri: ReturnInstance, rsp: usize) -> bool {
        match self {
            UretAliveCheck::Call => rsp < ri.stack,
            UretAliveCheck::Ret => rsp <= ri.stack,
        }
    }

    /// Whether the frame of `ri` is alive at stack pointer `rsp`.
    pub fn is_alive(self, ri: &ReturnInstance, rsp: usize) -> (alive: bool)
        ensures
            alive == self.alive(*ri, rsp),
    {
        match self {
            UretAliveCheck::Call => rsp < ri.stack,
            UretAliveCheck::Ret => rsp <= ri.stack,
        }
    }
}

/// `kept` is what is left of `chain` once its newest frames were dropped up to
/// the first live one.
pub open spec fn dead_tail_dropped(
    chain: Seq<ReturnInstance>,
    kept: Seq<ReturnInstance>,
    rsp: usize,
    ctx: UretAliveCheck,
) -> bool {
    &&& kept.len() <= chain.len()
    &&& kept == chain.take(kept.len() as int)
    &&& kept.len() > 0 ==> ctx.alive(kept.last(), rsp)
    &&& forall|i: int| kept.len() <= i < chain.len() ==> !ctx.alive(#[trigger] chain[i], rsp)
}

/// The uretprobe return-instance chain of a single task.
///
/// The tail is the newest, deepest frame; decreasing the index walks toward
/// shallower, older frames. No push makes the chain longer than
/// [`MAX_URETPROBE_DEPTH`]. It is private to the task.
pub struct TaskUretState {
    inner: FrameStack<ReturnInstance>,
    /// Slots counted as spare: answers of the allocator and dropped instances
    /// that no push has used up yet.
    spare: usize,
}

impl View for TaskUretState {
    type V = Seq<ReturnInstance>;

    closed spec fn view(&self) -> Seq<ReturnInstance> {
        self.inner@
    }
}

impl TaskUretState {
    /// The slots counted as spare: answers of the allocator that were noted, and
    /// instances dropped by a cleanup, less what pushes used up. The memory is
    /// there where each noted answer was given to this very chain.
    pub closed spec fn spare_slots(&self) -> nat {
        self.spare as nat
    }

    /// What the allocator answered so far when the chain asked it for memory for
    /// one more instance, the latest answer last.
    pub closed spec fn answers(&self) -> Seq<bool> {
        self.inner.answers()
    }

    /// Whether room for one more instance is a question to the allocator: below
    /// the cap, and without a spare slot.
    pub open spec fn must_ask(&self) -> bool {
        self@.len() < MAX_URETPROBE_DEPTH && self.spare_slots() == 0
    }

    /// What the allocator has answered once room for one more instance was
    /// found, or not: it is asked once if need be, and its answer decides.
    pub open spec fn answers_after(&self, room: bool) -> Seq<bool> {
        if self.must_ask() {
            self.answers().push(room)
        } else {
            self.answers()
        }
    }

    /// The depth cap is kept.
    pub open spec fn within_cap(&self) -> bool {
        self@.len() <= MAX_URETPROBE_DEPTH
    }

    /// What a push comes to: the chain takes the instance in, or it stays as it
    /// is.
    pub open spec fn push_effect(
        before: TaskUretState,
        ri: ReturnInstance,
        pushed: bool,
        after: TaskUretState,
    ) -> bool {
        &&& pushed ==> after@ == before@.push(ri) && after.spare_slots() == (
        if before.spare_slots() > 0 {
            before.spare_slots() - 1
        } else {
            0
        })
        &&& !pushed ==> after@ == before@ && after.spare_slots() == before.spare_slots()
    }

    /// What a push does. At the cap it fails, and below the cap it succeeds if a
    /// slot is spare. Otherwise it asks the allocator once, and succeeds if and
    /// only if the allocator grants the memory.
    pub open spec fn push_outcome(
        before: TaskUretState,
        ri: ReturnInstance,
        pushed: bool,
        after: TaskUretState,
    ) -> bool {
        &&& before@.len() >= MAX_URETPROBE_DEPTH ==> !pushed
        &&& before@.len() < MAX_URETPROBE_DEPTH && before.spare_slots() > 0 ==> pushed
        &&& after.answers() == before.answers_after(pushed)
        &&& TaskUretState::push_effect(before, ri, pushed, after)
    }

    /// What a reservation comes to: the chain stays as it is, and a slot is
    /// spare if it succeeded.
    pub open spec fn reserve_effect(
        before: TaskUretState,
        reserved: bool,
        after: TaskUretState,
    ) -> bool {
        &&& after@ == before@
        &&& after.spare_slots() == if reserved && before.spare_slots() == 0 {
            1
        } else {
            before.spare_slots()
        }
    }

    /// What a reservation does. At the cap it fails, and below the cap it
    /// succeeds if a slot is spare. Otherwise it asks the allocator once, and
    /// succeeds if and only if the allocator grants the memory.
    pub open spec fn reserve_outcome(
        before: TaskUretState,
        reserved: bool,
        after: TaskUretState,
    ) -> bool {
        &&& before@.len() >= MAX_URETPROBE_DEPTH ==> !reserved
        &&& before@.len() < MAX_URETPROBE_DEPTH && before.spare_slots() > 0 ==> reserved
        &&& after.answers() == before.answers_after(reserved)
        &&& TaskUretState::reserve_effect(before, reserved, after)
    }

    /// What dropping the dead frames does: the slots of the dropped ones are
    /// spare from then on.
    pub open spec fn cleanup_outcome(
        before: TaskUretState,
        after: TaskUretState,
        rsp: usize,
        ctx: UretAliveCheck,
    ) -> bool {
        let freed = before.spare_slots() + before@.len() - after@.len();
        &&& dead_tail_dropped(before@, after@, rsp, ctx)
        &&& after.answers() == before.answers()
        &&& after.spare_slots() == if freed <= usize::MAX {
            freed
        } else {
            usize::MAX as int
        }
    }

    /// What detaching does: the whole chain comes out.
    pub open spec fn take_outcome(
        before: TaskUretState,
        chain: Seq<ReturnInstance>,
        after: TaskUretState,
    ) -> bool {
        &&& chain == before@
        &&& after@ == Seq::<ReturnInstance>::empty()
        &&& after.spare_slots() == 0
        &&& after.answers() == before.answers()
    }

    /// What putting back does: the chain is the prefix.
    pub open spec fn restore_outcome(
        before: TaskUretState,
        prefix: Seq<ReturnInstance>,
        after: TaskUretState,
    ) -> bool {
        &&& after@ == prefix
        &&& after.spare_slots() == 0
        &&& after.answers() == before.answers()
    }

    /// An empty chain.
    pub fn new() -> (state: Self)
        ensures
            state@ == Seq::<ReturnInstance>::empty(),
            state.spare_slots() == 0,
            state.answers() == Seq::<bool>::empty(),
    {
        TaskUretState { inner: FrameStack::new(), spare: 0 }
    }

    /// Current chain depth (checked against the cap before a hijack).
    pub fn depth(&self) -> (depth: usize)
        ensures
            depth == self@.len(),
    {
        self.inner.len()
    }

    /// Ask the allocator for memory for one more instance. The answer is the
    /// allocator's.
    pub fn try_slot(&mut self) -> (slot: Option<SpareSlot<ReturnInstance>>)
        ensures
            final(self)@ == old(self)@,
            final(self).spare_slots() == old(self).spare_slots(),
            final(self).answers() == old(self).answers().push(slot is Some),
            slot matches Some(slot) ==> slot.fits(final(self)@, final(self).answers()),
    {
        self.inner.try_slot()
    }

    /// Push a new return instance.
    ///
    /// Returns `false` (the caller gives up this hijack and warns) when the
    /// depth already reached [`MAX_URETPROBE_DEPTH`] or when no memory for one
    /// more instance can be had. Without a spare slot this is the allocator's
    /// answer; [`push_with`](Self::push_with) says what follows from it.
    pub fn push(&mut self, ri: ReturnInstance) -> (pushed: bool)
        ensures
            TaskUretState::push_outcome(*old(self), ri, pushed, *final(self)),
    {
        let slot = if self.inner.len() >= MAX_URETPROBE_DEPTH || self.spare > 0 {
            None
        } else {
            self.try_slot()
        };
        self.push_with(ri, slot)
    }

    /// Push a new return instance into a spare slot, or else into `slot`.
    pub fn push_with(
        &mut self,
        ri: ReturnInstance,
        slot: Option<SpareSlot<ReturnInstance>>,
    ) -> (pushed: bool)
        requires
            slot matches Some(slot) ==> slot.fits(old(self)@, old(self).answers()),
        ensures
            pushed == (old(self)@.len() < MAX_URETPROBE_DEPTH && (old(self).spare_slots() > 0
                || slot is Some)),
            TaskUretState::push_effect(*old(self), ri, pushed, *final(self)),
            final(self).answers() == old(self).answers(),
    {
        if self.inner.len() >= MAX_URETPROBE_DEPTH || (self.spare == 0 && slot.is_none()) {
            return false;
        }
        self.inner.push(ri);
        if self.spare > 0 {
            self.spare -= 1;
        }
        true
    }

    /// Drop dead return instances starting from the chain tail (newest frame),
    /// as after a stack jump such as longjmp, until a live frame is reached.
    pub fn cleanup_dead(&mut self, rsp: usize, ctx: UretAliveCheck)
        ensures
            TaskUretState::cleanup_outcome(*old(self), *final(self), rsp, ctx),
    {
        let depth: usize = self.inner.len();
        loop
            invariant
                self.inner@.len() <= old(self)@.len(),
                self.inner@ == old(self)@.take(self.inner@.len() as int),
                self.inner.answers() == old(self).answers(),
                self.spare == old(self).spare_slots(),
                forall|i: int|
                    self.inner@.len() <= i < old(self)@.len() ==> !ctx.alive(
                        #[trigger] old(self)@[i],
                        rsp,
                    ),
            ensures
                self.inner@.len() > 0 ==> ctx.alive(self.inner@.last(), rsp),
            decreases self.inner@.len(),
        {
            let dead = match self.inner.last() {
                Some(ri) => !ctx.is_alive(ri, rsp),
                None => false,
            };
            if !dead {
                break;
            }
            self.inner.drop_last();
        }
        self.spare = self.spare.saturating_add(depth - self.inner.len());
    }

    /// Original return address of the chain head (newest frame), reused for
    /// chained hijacks. Returns `None` if the chain is empty.
    pub fn head_orig_ret_vaddr(&self) -> (vaddr: Option<usize>)
        ensures
            self@.len() == 0 ==> vaddr is None,
            self@.len() > 0 ==> vaddr == Some(self@.last().orig_ret_vaddr),
    {
        match self.inner.last() {
            Some(ri) => Some(ri.orig_ret_vaddr),
            None => None,
        }
    }

    /// Detach the whole return-instance chain; no allocation takes place.
    ///
    /// Used when a return lands on the trampoline. After finishing delivery the
    /// caller must put the unconsumed prefix back via
    /// [`restore_prefix`](Self::restore_prefix).
    pub fn take_all(&mut self) -> (chain: Vec<ReturnInstance>)
        ensures
            TaskUretState::take_outcome(*old(self), chain@, *final(self)),
    {
        self.spare = 0;
        self.inner.take()
    }

    /// Put the unconsumed prefix back into the chain; no allocation takes
    /// place. Legal only while the chain is empty.
    pub fn restore_prefix(&mut self, prefix: Vec<ReturnInstance>)
        requires
            old(self)@.len() == 0,
        ensures
            TaskUretState::restore_outcome(*old(self), prefix@, *final(self)),
    {
        self.inner.replace(prefix);
        self.spare = 0;
    }

    /// Reserve memory for one upcoming push (called before writing the user
    /// stack).
    ///
    /// Returning `false` means the depth cap was reached or the reservation
    /// failed (the caller gives up the hijack). Reserving before the stack
    /// write guarantees that once the trampoline is written into the
    /// return-address slot, the later push cannot fail on allocation.
    /// Otherwise the function return would hit a trampoline with no return
    /// instance.
    pub fn reserve_one(&mut self) -> (reserved: bool)
        ensures
            TaskUretState::reserve_outcome(*old(self), reserved, *final(self)),
    {
        let slot = if self.inner.len() >= MAX_URETPROBE_DEPTH || self.spare > 0 {
            None
        } else {
            self.try_slot()
        };
        self.reserve_with(slot)
    }

    /// See to it that a slot is spare for one upcoming push: one that is so
    /// already, or else `slot`.
    pub fn reserve_with(&mut self, slot: Option<SpareSlot<ReturnInstance>>) -> (reserved: bool)
        requires
            slot matches Some(slot) ==> slot.fits(old(self)@, old(self).answers()),
        ensures
            reserved == (old(self)@.len() < MAX_URETPROBE_DEPTH && (old(self).spare_slots() > 0
                || slot is Some)),
            TaskUretState::reserve_effect(*old(self), reserved, *final(self)),
            final(self).answers() == old(self).answers(),
    {
        if self.inner.len() >= MAX_URETPROBE_DEPTH || (self.spare == 0 && slot.is_none()) {
            return false;
        }
        if self.spare == 0 {
            self.spare = 1;
        }
        true
    }

    /// Discard the whole chain; no return callbacks are delivered. Called from
    /// paths that never return to the old user context, such as exec and exit.
    pub fn cleanup(&mut self)
        ensures
            final(self)@ == Seq::<ReturnInstance>::empty(),
            final(self).spare_slots() == 0,
            final(self).answers() == old(self).answers(),
    {
        let _ = self.take_all();
    }

    /// Format for diagnostics: the name alone, so that formatting needs no
    /// access to the chain.
    pub fn fmt(&self) -> (text: String)
        ensures
            text@ == "TaskUretState { .. }"@,
    {
        String::from_str("TaskUretState { .. }")
    }
}

/// A frame that is alive right after a call is alive at a return.
pub proof fn law_alive_at_call_is_alive_at_return(ri: ReturnInstance, rsp: usize)
    ensures
        UretAliveCheck::Call.alive(ri, rsp) ==> UretAliveCheck::Ret.alive(ri, rsp),
{
}

/// What is left after a cleanup is determined by the chain.
pub proof fn law_cleanup_is_deterministic(
    chain: Seq<ReturnInstance>,
    a: Seq<ReturnInstance>,
    b: Seq<ReturnInstance>,
    rsp: usize,
    ctx: UretAliveCheck,
)
    requires
        dead_tail_dropped(chain, a, rsp, ctx),
        dead_tail_dropped(chain, b, rsp, ctx),
    ensures
        a == b,
{
    if a.len() < b.len() {
        assert(b.last() == chain[b.len() - 1]);
    } else if b.len() < a.len() {
        assert(a.last() == chain[a.len() - 1]);
    }
}

/// Cleaning up again at the same stack pointer drops nothing more.
pub proof fn law_cleanup_is_idempotent(
    chain: Seq<ReturnInstance>,
    once: Seq<ReturnInstance>,
    twice: Seq<ReturnInstance>,
    rsp: usize,
    ctx: UretAliveCheck,
)
    requires
        dead_tail_dropped(chain, once, rsp, ctx),
        dead_tail_dropped(once, twice, rsp, ctx),
    ensures
        twice == once,
{
    assert(once.take(once.len() as int) =~= once);
    assert(dead_tail_dropped(once, once, rsp, ctx));
    law_cleanup_is_deterministic(once, once, twice, rsp, ctx);
}

/// On a chain whose deeper frames lie lower on the stack, a cleanup keeps
/// exactly the live frames.
pub proof fn law_cleanup_keeps_exactly_the_live(
    chain: Seq<ReturnInstance>,
    kept: Seq<ReturnInstance>,
    rsp: usize,
    ctx: UretAliveCheck,
    i: int,
)
    requires
        forall|j: int, k: int|
            0 <= j <= k < chain.len() ==> (#[trigger] chain[k]).stack <= (#[trigger] chain[j]).stack,
        dead_tail_dropped(chain, kept, rsp, ctx),
        0 <= i < chain.len(),
    ensures
        ctx.alive(chain[i], rsp) <==> i < kept.len(),
{
    if i < kept.len() {
        assert(kept.last() == chain[kept.len() - 1]);
        assert(chain[kept.len() - 1].stack <= chain[i].stack);
    }
}

/// Once a reservation succeeded, the next push succeeds without a question to
/// the allocator.
pub proof fn law_reserved_push_succeeds(
    before: TaskUretState,
    reserved: bool,
    between: TaskUretState,
    ri: ReturnInstance,
    pushed: bool,
    after: TaskUretState,
)
    requires
        TaskUretState::reserve_outcome(before, reserved, between),
        reserved,
        TaskUretState::push_outcome(between, ri, pushed, after),
    ensures
        pushed,
        after.answers() == between.answers(),
        after@ == before@.push(ri),
{
}

/// Only the depth cap or an allocator that refuses makes a push or a
/// reservation fail.
pub proof fn law_failure_is_cap_or_allocator(
    before: TaskUretState,
    ri: ReturnInstance,
    pushed: bool,
    after_push: TaskUretState,
    reserved: bool,
    after_reserve: TaskUretState,
)
    requires
        TaskUretState::push_outcome(before, ri, pushed, after_push),
        TaskUretState::reserve_outcome(before, reserved, after_reserve),
    ensures
        !pushed ==> before@.len() >= MAX_URETPROBE_DEPTH || after_push.answers()
            == before.answers().push(false),
        !reserved ==> before@.len() >= MAX_URETPROBE_DEPTH || after_reserve.answers()
            == before.answers().push(false),
{
}

/// Where a cleanup dropped a frame, and below the cap, a reservation and a push
/// succeed without a question to the allocator; and a cleanup uses up no
/// reservation.
pub proof fn law_dropped_frames_leave_room(
    before: TaskUretState,
    between: TaskUretState,
    rsp: usize,
    ctx: UretAliveCheck,
    reserved: bool,
    after_reserve: TaskUretState,
    ri: ReturnInstance,
    pushed: bool,
    after_push: TaskUretState,
)
    requires
        TaskUretState::cleanup_outcome(before, between, rsp, ctx),
        between@.len() < before@.len() || before.spare_slots() > 0,
        between@.len() < MAX_URETPROBE_DEPTH,
        TaskUretState::reserve_outcome(between, reserved, after_reserve),
        TaskUretState::push_outcome(between, ri, pushed, after_push),
    ensures
        reserved,
        pushed,
        after_reserve.answers() == before.answers(),
        after_push.answers() == before.answers(),
        after_push@ == between@.push(ri),
{
}

/// A push is undone by dropping the newest frame, and it names the new frame
/// as the chain head.
pub proof fn law_push_makes_the_head(
    before: TaskUretState,
    ri: ReturnInstance,
    pushed: bool,
    after: TaskUretState,
)
    requires
        TaskUretState::push_outcome(before, ri, pushed, after),
        pushed,
    ensures
        after@.last() == ri,
        after@.drop_last() == before@,
{
}

/// Detaching the chain and putting back its oldest `n` frames leaves just
/// those; putting back all of it undoes the detaching.
pub proof fn law_restore_undoes_take(
    before: TaskUretState,
    chain: Seq<ReturnInstance>,
    between: TaskUretState,
    n: int,
    after: TaskUretState,
)
    requires
        TaskUretState::take_outcome(before, chain, between),
        0 <= n <= chain.len(),
        TaskUretState::restore_outcome(between, chain.take(n), after),
    ensures
        between@.len() == 0,
        after@ == before@.take(n),
        n == chain.len() ==> after@ == before@,
{
    assert(chain.take(chain.len() as int) =~= chain);
}

/// Pushes and cleanups keep the depth cap, and so does putting back any prefix
/// of a chain that kept it.
pub proof fn law_depth_cap_is_kept(
    before: TaskUretState,
    ri: ReturnInstance,
    pushed: bool,
    after_push: TaskUretState,
    kept: Seq<ReturnInstance>,
    rsp: usize,
    ctx: UretAliveCheck,
    restored: int,
)
    requires
        before.within_cap(),
        TaskUretState::push_outcome(before, ri, pushed, after_push),
        dead_tail_dropped(before@, kept, rsp, ctx),
        0 <= restored <= before@.len(),
    ensures
        after_push.within_cap(),
        kept.len() <= MAX_URETPROBE_DEPTH,
        before@.take(restored).len() <= MAX_URETPROBE_DEPTH,
{
}

} // verus!
