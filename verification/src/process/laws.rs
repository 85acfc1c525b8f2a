//! What the operations on a task's uprobe state promise to their callers, said
//! of the calls themselves.

use crate::process::frames::{FrameStack, SpareSlot};
use crate::process::pcb::{cleanup_task_uret_instances, Pid, ProcessControlBlock};
use crate::process::uret::{ReturnInstance, TaskUretState, UretAliveCheck};
use crate::process::xol::{ActiveXol, TaskXolPhase, TaskXolState};
use crate::text::{
    bool_text, decimal_digits, is_digit, lemma_same_bool_in_front, lemma_same_front,
    lemma_same_number_in_front,
};
use std::vec::Vec;
use vstd::prelude::*;

verus! {

/// A frame lives as long as the stack pointer lies below its return-address
/// slot, wherever on the stack that is. At the slot itself it lives if the
/// check is made at a return, and is dead right after a call.
pub proof fn law_frame_lives_below_its_slot(
    ri: ReturnInstance,
    rsp: usize,
    at_call: bool,
    at_return: bool,
)
    requires
        call_ensures(UretAliveCheck::is_alive, (UretAliveCheck::Call, &ri, rsp), at_call),
        call_ensures(UretAliveCheck::is_alive, (UretAliveCheck::Ret, &ri, rsp), at_return),
    ensures
        rsp < ri.stack ==> at_call && at_return,
        rsp == ri.stack ==> !at_call && at_return,
        rsp > ri.stack ==> !at_call && !at_return,
{
}

/// A cleanup drops nothing from a chain whose every slot lies above the stack
/// pointer, and everything from one whose every slot lies below it.
pub proof fn law_cleanup_spares_frames_above(
    state: &mut TaskUretState,
    rsp: usize,
    ctx: UretAliveCheck,
    unit: (),
)
    requires
        call_ensures(TaskUretState::cleanup_dead, (state, rsp, ctx), unit),
    ensures
        (forall|i: int| 0 <= i < old(state)@.len() ==> rsp < (#[trigger] old(state)@[i]).stack)
            ==> final(state)@ == old(state)@,
        (forall|i: int| 0 <= i < old(state)@.len() ==> (#[trigger] old(state)@[i]).stack < rsp)
            ==> final(state)@.len() == 0,
        (forall|i: int| 0 <= i < old(state)@.len() ==> (#[trigger] old(state)@[i]).stack == rsp)
            ==> final(state)@.len() == (if ctx is Ret {
            old(state)@.len()
        } else {
            0
        }),
{
    let chain = old(state)@;
    let kept = final(state)@;
    if kept.len() < chain.len() {
        let _ = chain[kept.len() as int];
    } else {
        assert(chain.take(chain.len() as int) =~= chain);
    }
    if kept.len() > 0 {
        assert(kept.last() == chain[kept.len() - 1]);
    }
}

/// A cleanup keeps the oldest frames as they are, up to the newest one whose
/// slot the stack pointer has not passed; every frame that it drops has been
/// passed.
pub proof fn law_cleanup_goes_by_the_stack_pointer(
    state: &mut TaskUretState,
    rsp: usize,
    ctx: UretAliveCheck,
    unit: (),
)
    requires
        call_ensures(TaskUretState::cleanup_dead, (state, rsp, ctx), unit),
    ensures
        final(state)@.len() <= old(state)@.len(),
        forall|i: int|
            0 <= i < final(state)@.len() ==> #[trigger] final(state)@[i] == old(state)@[i],
        final(state)@.len() > 0 ==> rsp <= final(state)@.last().stack,
        final(state)@.len() > 0 && rsp == final(state)@.last().stack ==> ctx is Ret,
        forall|i: int|
            final(state)@.len() <= i < old(state)@.len() ==> (#[trigger] old(state)@[i]).stack
                <= rsp,
        forall|i: int|
            final(state)@.len() <= i < old(state)@.len() && (#[trigger] old(state)@[i]).stack == rsp
                ==> ctx is Call,
{
}

/// A frame that was pushed at the place where the stack then is survives a
/// cleanup there, and so does all that lies under it.
pub proof fn law_pushed_frame_survives_cleanup(
    state: &mut TaskUretState,
    ri: ReturnInstance,
    later: &mut TaskUretState,
    rsp: usize,
    ctx: UretAliveCheck,
    unit: (),
)
    requires
        call_ensures(TaskUretState::push, (state, ri), true),
        *later == *final(state),
        rsp < ri.stack,
        call_ensures(TaskUretState::cleanup_dead, (later, rsp, ctx), unit),
    ensures
        final(later)@ == old(state)@.push(ri),
{
    let chain = old(state)@.push(ri);
    let kept = final(later)@;
    if kept.len() < chain.len() {
        assert(chain[chain.len() - 1] == ri);
    } else {
        assert(chain.take(chain.len() as int) =~= chain);
    }
}

/// A new chain is empty and has no head.
pub proof fn law_new_chain_is_empty(state: TaskUretState, depth: usize, head: Option<usize>)
    requires
        call_ensures(TaskUretState::new, (), state),
        call_ensures(TaskUretState::depth, (&state,), depth),
        call_ensures(TaskUretState::head_orig_ret_vaddr, (&state,), head),
    ensures
        depth == 0,
        head is None,
        state@.len() == 0,
{
}

/// A push that succeeds makes the chain one deeper and its instance the head,
/// and keeps the others. One that fails changes nothing.
pub proof fn law_push_deepens_by_one(
    state: &mut TaskUretState,
    ri: ReturnInstance,
    pushed: bool,
    depth: usize,
    head: Option<usize>,
)
    requires
        call_ensures(TaskUretState::push, (state, ri), pushed),
        call_ensures(TaskUretState::depth, (final(state),), depth),
        call_ensures(TaskUretState::head_orig_ret_vaddr, (final(state),), head),
    ensures
        pushed ==> depth == old(state)@.len() + 1 && head == Some(ri.orig_ret_vaddr)
            && final(state)@.last() == ri && final(state)@.drop_last() == old(state)@,
        !pushed ==> depth == old(state)@.len() && final(state)@ == old(state)@,
        old(state)@.len() >= 64 ==> !pushed,
{
}

/// Below the cap, a push after a successful reservation succeeds, whatever is
/// pushed; and a push fails only where the allocator was asked and refused.
pub proof fn law_push_fails_only_for_want_of_memory(
    state: &mut TaskUretState,
    reserved: bool,
    later: &mut TaskUretState,
    ri: ReturnInstance,
    pushed: bool,
)
    requires
        call_ensures(TaskUretState::reserve_one, (state,), reserved),
        *later == *final(state),
        call_ensures(TaskUretState::push, (later, ri), pushed),
    ensures
        final(state)@ == old(state)@,
        reserved ==> pushed && final(later)@ == old(state)@.push(ri),
        reserved ==> final(later).answers() == final(state).answers(),
        !reserved && old(state)@.len() < 64 ==> final(state).answers() == old(state).answers().push(false),
        !pushed && old(state)@.len() < 64 ==> final(later).answers() == final(state).answers().push(false),
        old(state)@.len() >= 64 ==> !reserved && !pushed,
{
}

/// Told that there is a slot, a push and a reservation succeed below the cap.
/// Told that there is none, they succeed only on what was spare before.
pub proof fn law_slot_decides(
    state: &mut TaskUretState,
    ri: ReturnInstance,
    slot: Option<SpareSlot<ReturnInstance>>,
    pushed: bool,
    other: &mut TaskUretState,
    other_slot: Option<SpareSlot<ReturnInstance>>,
    reserved: bool,
)
    requires
        call_ensures(TaskUretState::push_with, (state, ri, slot), pushed),
        call_ensures(TaskUretState::reserve_with, (other, other_slot), reserved),
    ensures
        old(state)@.len() < 64 && slot is Some ==> pushed,
        slot is None && old(state).spare_slots() == 0 ==> !pushed,
        old(state)@.len() >= 64 ==> !pushed,
        pushed ==> final(state)@ == old(state)@.push(ri),
        !pushed ==> final(state)@ == old(state)@,
        old(other)@.len() < 64 && other_slot is Some ==> reserved,
        other_slot is None && old(other).spare_slots() == 0 ==> !reserved,
        old(other)@.len() >= 64 ==> !reserved,
        final(other)@ == old(other)@,
        reserved ==> final(other).spare_slots() > 0,
{
}

/// Asking for memory changes neither the chain nor what is spare, and the answer
/// is noted. A slot that was had is good for a push right away.
pub proof fn law_slot_is_good_for_a_push(
    state: &mut TaskUretState,
    slot: Option<SpareSlot<ReturnInstance>>,
    later: &mut TaskUretState,
    ri: ReturnInstance,
    pushed: bool,
)
    requires
        call_ensures(TaskUretState::try_slot, (state,), slot),
        *later == *final(state),
        call_ensures(TaskUretState::push_with, (later, ri, slot), pushed),
    ensures
        final(state)@ == old(state)@,
        final(state).spare_slots() == old(state).spare_slots(),
        final(state).answers() == old(state).answers().push(slot is Some),
        slot matches Some(slot) ==> slot.fits(final(state)@, final(state).answers()),
        slot is Some && old(state)@.len() < 64 ==> pushed && final(later)@ == old(state)@.push(ri),
        slot is None && old(state).spare_slots() == 0 ==> !pushed && final(later)@ == old(state)@,
{
}

/// The slots of dropped frames are spare: as many reservations as there are
/// dropped frames need no memory.
pub proof fn law_cleanup_frees_what_it_drops(
    state: &mut TaskUretState,
    rsp: usize,
    ctx: UretAliveCheck,
    unit: (),
)
    requires
        call_ensures(TaskUretState::cleanup_dead, (state, rsp, ctx), unit),
        old(state).spare_slots() + old(state)@.len() <= usize::MAX,
    ensures
        final(state).spare_slots() + final(state)@.len() == old(state).spare_slots() + old(state)@.len(),
{
}

/// What is detached is the whole chain, in order; putting it back makes the
/// chain what it was, and the head with it.
pub proof fn law_detached_chain_comes_back(
    state: &mut TaskUretState,
    chain: Vec<ReturnInstance>,
    later: &mut TaskUretState,
    unit: (),
    head: Option<usize>,
)
    requires
        call_ensures(TaskUretState::take_all, (state,), chain),
        *later == *final(state),
        call_ensures(TaskUretState::restore_prefix, (later, chain), unit),
        call_ensures(TaskUretState::head_orig_ret_vaddr, (final(later),), head),
    ensures
        chain@ == old(state)@,
        final(state)@.len() == 0,
        final(later)@ == old(state)@,
        old(state)@.len() == 0 ==> head is None,
        old(state)@.len() > 0 ==> head == Some(old(state)@.last().orig_ret_vaddr),
{
}

/// A cleanup for exec or exit leaves no instance, and of the process it changes
/// nothing but the chain.
pub proof fn law_exit_leaves_no_instance(
    state: &mut TaskUretState,
    pcb: &mut ProcessControlBlock,
    unit: (),
)
    requires
        call_ensures(TaskUretState::cleanup, (state,), unit),
        call_ensures(cleanup_task_uret_instances, (pcb,), unit),
    ensures
        final(state)@.len() == 0,
        final(pcb).uret@.len() == 0,
        final(pcb).pid == old(pcb).pid,
        final(pcb).pgid == old(pcb).pgid,
        final(pcb).sid == old(pcb).sid,
        final(pcb).session_leader == old(pcb).session_leader,
        final(pcb).session == old(pcb).session,
        final(pcb).tty == old(pcb).tty,
        final(pcb).has_pending_signal == old(pcb).has_pending_signal,
        final(pcb).execute_path == old(pcb).execute_path,
{
}

/// The rest of a text after its first separator.
spec fn after_func(ri: ReturnInstance) -> Seq<char> {
    ", stack: "@ + (decimal_digits(ri.stack as nat) + after_stack(ri))
}

spec fn after_stack(ri: ReturnInstance) -> Seq<char> {
    ", orig_ret_vaddr: "@ + (decimal_digits(ri.orig_ret_vaddr as nat) + after_vaddr(ri))
}

spec fn after_vaddr(ri: ReturnInstance) -> Seq<char> {
    ", chained: "@ + (bool_text(ri.chained) + ", .. }"@)
}

proof fn lemma_instance_text(ri: ReturnInstance)
    ensures
        ri.text() == "ReturnInstance { func: "@ + (decimal_digits(ri.func as nat) + after_func(ri)),
        after_func(ri).len() > 0 && !is_digit(after_func(ri)[0]),
        after_stack(ri).len() > 0 && !is_digit(after_stack(ri)[0]),
        after_vaddr(ri).len() > 0 && !is_digit(after_vaddr(ri)[0]),
{
    reveal_strlit(", stack: ");
    reveal_strlit(", orig_ret_vaddr: ");
    reveal_strlit(", chained: ");
    assert(after_func(ri)[0] == ", stack: "@[0]);
    assert(after_stack(ri)[0] == ", orig_ret_vaddr: "@[0]);
    assert(after_vaddr(ri)[0] == ", chained: "@[0]);
    assert(ri.text() =~= "ReturnInstance { func: "@ + (decimal_digits(ri.func as nat) + after_func(
        ri,
    )));
}

/// The diagnostic text of an instance is these words with the exact numbers of
/// its fields between them.
pub proof fn law_instance_text_is_exact(ri: ReturnInstance, text: String)
    requires
        call_ensures(ReturnInstance::fmt, (&ri,), text),
    ensures
        text@ == "ReturnInstance { func: "@ + (decimal_digits(ri.func as nat) + (", stack: "@ + (
        decimal_digits(ri.stack as nat) + (", orig_ret_vaddr: "@ + (decimal_digits(
            ri.orig_ret_vaddr as nat,
        ) + (", chained: "@ + (bool_text(ri.chained) + ", .. }"@))))))),
{
    lemma_instance_text(ri);
}

/// The diagnostic text of an instance shows its addresses and its flag in full:
/// instances of equal texts agree in them.
pub proof fn law_instance_text_shows_its_fields(
    a: ReturnInstance,
    b: ReturnInstance,
    text_a: String,
    text_b: String,
)
    requires
        call_ensures(ReturnInstance::fmt, (&a,), text_a),
        call_ensures(ReturnInstance::fmt, (&b,), text_b),
        text_a@ == text_b@,
    ensures
        a.func == b.func,
        a.stack == b.stack,
        a.orig_ret_vaddr == b.orig_ret_vaddr,
        a.chained == b.chained,
{
    lemma_instance_text(a);
    lemma_instance_text(b);
    lemma_same_front(
        "ReturnInstance { func: "@,
        decimal_digits(a.func as nat) + after_func(a),
        decimal_digits(b.func as nat) + after_func(b),
    );
    lemma_same_number_in_front(a.func as nat, b.func as nat, after_func(a), after_func(b));
    lemma_same_front(
        ", stack: "@,
        decimal_digits(a.stack as nat) + after_stack(a),
        decimal_digits(b.stack as nat) + after_stack(b),
    );
    lemma_same_number_in_front(a.stack as nat, b.stack as nat, after_stack(a), after_stack(b));
    lemma_same_front(
        ", orig_ret_vaddr: "@,
        decimal_digits(a.orig_ret_vaddr as nat) + after_vaddr(a),
        decimal_digits(b.orig_ret_vaddr as nat) + after_vaddr(b),
    );
    lemma_same_number_in_front(
        a.orig_ret_vaddr as nat,
        b.orig_ret_vaddr as nat,
        after_vaddr(a),
        after_vaddr(b),
    );
    lemma_same_front(
        ", chained: "@,
        bool_text(a.chained) + ", .. }"@,
        bool_text(b.chained) + ", .. }"@,
    );
    lemma_same_bool_in_front(a.chained, b.chained, ", .. }"@, ", .. }"@);
}

/// A new task executes nothing out of line, and neither does a default one.
pub proof fn law_new_task_is_idle(
    state: TaskXolState,
    default: TaskXolState,
    phase: TaskXolPhase,
    vaddr: Option<usize>,
)
    requires
        call_ensures(TaskXolState::new, (), state),
        call_ensures(TaskXolState::default, (), default),
        call_ensures(TaskXolState::phase, (&state,), phase),
        call_ensures(TaskXolState::active_probe_vaddr, (&state,), vaddr),
    ensures
        phase is Idle,
        vaddr is None,
        state@.payload is None,
        default@ == state@,
{
}

/// Once an operation was published, the state names the address of its probe,
/// the whole of it, before and after a trap; and the consumer gets the very
/// operation, with the phase that it reached.
pub proof fn law_published_operation_is_named_and_taken(
    state: &mut TaskXolState,
    active: ActiveXol,
    published: Result<(), ActiveXol>,
    running: Option<usize>,
    trap: &mut TaskXolState,
    trapped: Option<usize>,
    named: Option<usize>,
    consumer: &mut TaskXolState,
    taken: Option<(TaskXolPhase, ActiveXol)>,
)
    requires
        old(state)@.phase is Idle,
        old(state)@.payload is None,
        call_ensures(TaskXolState::publish_running, (state, active), published),
        call_ensures(TaskXolState::active_probe_vaddr, (final(state),), running),
        *trap == *final(state),
        call_ensures(TaskXolState::mark_trapped, (trap,), trapped),
        call_ensures(TaskXolState::active_probe_vaddr, (final(trap),), named),
        *consumer == *final(trap),
        call_ensures(TaskXolState::take, (consumer,), taken),
    ensures
        published is Ok,
        running == Some(active.probe_vaddr),
        trapped == Some(active.probe_vaddr),
        named == Some(active.probe_vaddr),
        taken == Some((TaskXolPhase::Trapped, active)),
        final(consumer)@.phase is Idle,
        final(consumer)@.payload is None,
{
}

/// An operation that is taken before it trapped comes with the Running phase,
/// and taking it once more gives nothing.
pub proof fn law_untrapped_operation_is_taken_once(
    state: &mut TaskXolState,
    active: ActiveXol,
    published: Result<(), ActiveXol>,
    consumer: &mut TaskXolState,
    taken: Option<(TaskXolPhase, ActiveXol)>,
    late: &mut TaskXolState,
    again: Option<(TaskXolPhase, ActiveXol)>,
)
    requires
        old(state)@.phase is Idle,
        old(state)@.payload is None,
        call_ensures(TaskXolState::publish_running, (state, active), published),
        *consumer == *final(state),
        call_ensures(TaskXolState::take, (consumer,), taken),
        *late == *final(consumer),
        call_ensures(TaskXolState::take, (late,), again),
    ensures
        taken == Some((TaskXolPhase::Running, active)),
        again is None,
        final(late)@.phase is Idle,
        final(late)@.payload is None,
{
}

/// A publication succeeds exactly where nothing is in flight and no payload is
/// held. One that is refused hands its operation back and changes nothing.
pub proof fn law_publication_needs_a_vacant_state(
    state: &mut TaskXolState,
    active: ActiveXol,
    published: Result<(), ActiveXol>,
)
    requires
        call_ensures(TaskXolState::publish_running, (state, active), published),
    ensures
        published is Ok <==> old(state)@.phase is Idle && old(state)@.payload is None,
        published is Ok ==> final(state)@.phase is Running && final(state)@.payload == Some(active),
        published matches Err(refused) ==> refused == active && final(state)@ == old(state)@,
{
}

/// A trap changes nothing but the phase, and that only from Running to Trapped.
/// What it names is the address of the operation in flight.
pub proof fn law_trap_changes_only_the_phase(state: &mut TaskXolState, vaddr: Option<usize>)
    requires
        old(state)@.consistent(),
        call_ensures(TaskXolState::mark_trapped, (state,), vaddr),
    ensures
        final(state)@.payload == old(state)@.payload,
        old(state)@.phase is Idle ==> vaddr is None && final(state)@.phase is Idle,
        !(old(state)@.phase is Idle) ==> final(state)@.phase is Trapped && (old(state)@.payload matches Some(active) && vaddr == Some(active.probe_vaddr)),
{
}

/// Discarding says whether there was an operation, and leaves none.
pub proof fn law_discard_leaves_nothing(state: &mut TaskXolState, existed: bool)
    requires
        call_ensures(TaskXolState::discard, (state,), existed),
    ensures
        existed <==> !(old(state)@.phase is Idle),
        existed ==> final(state)@.phase is Idle && final(state)@.payload is None,
        !existed ==> final(state)@ == old(state)@,
{
}

/// The single steps, one after another, do what publishing, trapping and taking
/// do; in between the payload is held under an idle phase.
pub proof fn law_steps_make_up_the_operations(
    state: &mut TaskXolState,
    active: ActiveXol,
    stored: Result<(), ActiveXol>,
    held: bool,
    release: &mut TaskXolState,
    unit: (),
    trap: &mut TaskXolState,
    exchanged: bool,
    swap: &mut TaskXolState,
    phase: TaskXolPhase,
    rest: &mut TaskXolState,
    payload: Option<ActiveXol>,
)
    requires
        old(state)@.phase is Idle,
        old(state)@.payload is None,
        call_ensures(TaskXolState::store_payload, (state, active), stored),
        call_ensures(TaskXolState::holds_payload, (final(state),), held),
        *release == *final(state),
        call_ensures(TaskXolState::release_running, (release,), unit),
        *trap == *final(release),
        call_ensures(TaskXolState::exchange_trapped, (trap,), exchanged),
        *swap == *final(trap),
        call_ensures(TaskXolState::swap_idle, (swap,), phase),
        *rest == *final(swap),
        call_ensures(TaskXolState::take_payload, (rest,), payload),
    ensures
        stored is Ok,
        held,
        final(state)@.phase is Idle && final(state)@.payload == Some(active),
        final(release)@.phase is Running && final(release)@.payload == Some(active),
        exchanged,
        final(trap)@.phase is Trapped && final(trap)@.payload == Some(active),
        phase is Trapped,
        final(swap)@.phase is Idle && final(swap)@.payload == Some(active),
        payload == Some(active),
        final(rest)@.phase is Idle && final(rest)@.payload is None,
{
}

/// A step that does not apply changes nothing: a payload is refused and handed
/// back unless the state is vacant, only a running instruction can trap, and
/// swapping away an idle phase leaves it idle.
pub proof fn law_steps_that_do_not_apply(
    state: &mut TaskXolState,
    active: ActiveXol,
    stored: Result<(), ActiveXol>,
    trap: &mut TaskXolState,
    exchanged: bool,
    swap: &mut TaskXolState,
    phase: TaskXolPhase,
    held: bool,
)
    requires
        call_ensures(TaskXolState::store_payload, (state, active), stored),
        call_ensures(TaskXolState::exchange_trapped, (trap,), exchanged),
        call_ensures(TaskXolState::swap_idle, (swap,), phase),
        call_ensures(TaskXolState::holds_payload, (&*old(swap),), held),
    ensures
        stored is Ok <==> old(state)@.phase is Idle && old(state)@.payload is None,
        stored matches Err(refused) ==> refused == active && final(state)@ == old(state)@,
        exchanged <==> old(trap)@.phase is Running,
        !exchanged ==> final(trap)@ == old(trap)@,
        final(trap)@.payload == old(trap)@.payload,
        phase == old(swap)@.phase,
        final(swap)@.phase is Idle,
        final(swap)@.payload == old(swap)@.payload,
        held <==> old(swap)@.payload is Some,
{
}

/// A phase survives the way into its number and back, and the three numbers
/// are 0, 1 and 2.
pub proof fn law_phase_numbers_round_trip(phase: TaskXolPhase, raw: u8, back: TaskXolPhase)
    requires
        call_ensures(TaskXolPhase::as_raw, (phase,), raw),
        call_ensures(TaskXolPhase::from_raw, (raw,), back),
    ensures
        back == phase,
        raw == (match phase {
            TaskXolPhase::Idle => 0u8,
            TaskXolPhase::Running => 1u8,
            TaskXolPhase::Trapped => 2u8,
        }),
{
}

spec fn after_probe(a: ActiveXol) -> Seq<char> {
    ", return_addr: "@ + (decimal_digits(a.return_addr as nat) + after_return(a))
}

spec fn after_return(a: ActiveXol) -> Seq<char> {
    ", orig_tf: "@ + (bool_text(a.orig_tf) + after_flag(a))
}

spec fn after_flag(a: ActiveXol) -> Seq<char> {
    ", slot_end: "@ + (decimal_digits(a.slot_end as nat) + after_slot_end(a))
}

spec fn after_slot_end(a: ActiveXol) -> Seq<char> {
    ", xol_slot_offset: "@ + (decimal_digits(a.xol_lease.offset as nat) + ", .. }"@)
}

proof fn lemma_active_text(a: ActiveXol)
    ensures
        a.text() == "ActiveXol { probe_vaddr: "@ + (decimal_digits(a.probe_vaddr as nat)
            + after_probe(a)),
        after_probe(a).len() > 0 && !is_digit(after_probe(a)[0]),
        after_return(a).len() > 0 && !is_digit(after_return(a)[0]),
        after_flag(a).len() > 0,
        after_slot_end(a).len() > 0 && !is_digit(after_slot_end(a)[0]),
        ", .. }"@.len() > 0 && !is_digit(", .. }"@[0]),
{
    reveal_strlit(", return_addr: ");
    reveal_strlit(", orig_tf: ");
    reveal_strlit(", slot_end: ");
    reveal_strlit(", xol_slot_offset: ");
    reveal_strlit(", .. }");
    assert(after_probe(a)[0] == ", return_addr: "@[0]);
    assert(after_return(a)[0] == ", orig_tf: "@[0]);
    assert(after_slot_end(a)[0] == ", xol_slot_offset: "@[0]);
    assert(a.text() =~= "ActiveXol { probe_vaddr: "@ + (decimal_digits(a.probe_vaddr as nat)
        + after_probe(a)));
}

/// The diagnostic text of an operation is these words with the exact numbers of
/// its fields between them.
pub proof fn law_active_text_is_exact(active: ActiveXol, text: String)
    requires
        call_ensures(ActiveXol::fmt, (&active,), text),
    ensures
        text@ == "ActiveXol { probe_vaddr: "@ + (decimal_digits(active.probe_vaddr as nat) + (
        ", return_addr: "@ + (decimal_digits(active.return_addr as nat) + (", orig_tf: "@ + (
        bool_text(active.orig_tf) + (", slot_end: "@ + (decimal_digits(active.slot_end as nat) + (
        ", xol_slot_offset: "@ + (decimal_digits(active.xol_lease.offset as nat)
            + ", .. }"@))))))))),
{
    lemma_active_text(active);
}

/// The diagnostic text of an operation shows its addresses, its flag and its
/// slot in full: operations of equal texts agree in them.
pub proof fn law_active_text_shows_its_fields(
    a: ActiveXol,
    b: ActiveXol,
    text_a: String,
    text_b: String,
)
    requires
        call_ensures(ActiveXol::fmt, (&a,), text_a),
        call_ensures(ActiveXol::fmt, (&b,), text_b),
        text_a@ == text_b@,
    ensures
        a.probe_vaddr == b.probe_vaddr,
        a.return_addr == b.return_addr,
        a.orig_tf == b.orig_tf,
        a.slot_end == b.slot_end,
        a.xol_lease.offset == b.xol_lease.offset,
{
    lemma_active_text(a);
    lemma_active_text(b);
    lemma_same_front(
        "ActiveXol { probe_vaddr: "@,
        decimal_digits(a.probe_vaddr as nat) + after_probe(a),
        decimal_digits(b.probe_vaddr as nat) + after_probe(b),
    );
    lemma_same_number_in_front(
        a.probe_vaddr as nat,
        b.probe_vaddr as nat,
        after_probe(a),
        after_probe(b),
    );
    lemma_same_front(
        ", return_addr: "@,
        decimal_digits(a.return_addr as nat) + after_return(a),
        decimal_digits(b.return_addr as nat) + after_return(b),
    );
    lemma_same_number_in_front(
        a.return_addr as nat,
        b.return_addr as nat,
        after_return(a),
        after_return(b),
    );
    lemma_same_front(
        ", orig_tf: "@,
        bool_text(a.orig_tf) + after_flag(a),
        bool_text(b.orig_tf) + after_flag(b),
    );
    lemma_same_bool_in_front(a.orig_tf, b.orig_tf, after_flag(a), after_flag(b));
    lemma_same_front(
        ", slot_end: "@,
        decimal_digits(a.slot_end as nat) + after_slot_end(a),
        decimal_digits(b.slot_end as nat) + after_slot_end(b),
    );
    lemma_same_number_in_front(
        a.slot_end as nat,
        b.slot_end as nat,
        after_slot_end(a),
        after_slot_end(b),
    );
    lemma_same_front(
        ", xol_slot_offset: "@,
        decimal_digits(a.xol_lease.offset as nat) + ", .. }"@,
        decimal_digits(b.xol_lease.offset as nat) + ", .. }"@,
    );
    lemma_same_number_in_front(
        a.xol_lease.offset as nat,
        b.xol_lease.offset as nat,
        ", .. }"@,
        ", .. }"@,
    );
}

/// The diagnostic text of a state tells its phase: states of equal texts are in
/// the same phase.
pub proof fn law_state_text_tells_the_phase(
    a: TaskXolState,
    b: TaskXolState,
    text_a: String,
    text_b: String,
)
    requires
        call_ensures(TaskXolState::fmt, (&a,), text_a),
        call_ensures(TaskXolState::fmt, (&b,), text_b),
        text_a@ == text_b@,
    ensures
        a@.phase == b@.phase,
{
    reveal_strlit("Idle");
    reveal_strlit("Running");
    reveal_strlit("Trapped");
    let front = "TaskXolState { phase: "@;
    let back = ", .. }"@;
    assert(front + a@.phase.name() + back =~= front + (a@.phase.name() + back));
    assert(front + b@.phase.name() + back =~= front + (b@.phase.name() + back));
    lemma_same_front(front, a@.phase.name() + back, b@.phase.name() + back);
    assert((a@.phase.name() + back)[0] == a@.phase.name()[0]);
    assert((b@.phase.name() + back)[0] == b@.phase.name()[0]);
}

/// A number put into a process number comes out again.
pub proof fn law_pid_keeps_its_number(data: usize, pid: Pid, back: usize)
    requires
        call_ensures(Pid::new, (data,), pid),
        call_ensures(Pid::data, (&pid,), back),
    ensures
        back == data,
{
}

/// What a process says of itself is what it holds.
pub proof fn law_process_tells_what_it_holds(
    pcb: ProcessControlBlock,
    leader: bool,
    pid: Pid,
    path: &String,
)
    requires
        call_ensures(ProcessControlBlock::is_session_leader, (&pcb,), leader),
        call_ensures(ProcessControlBlock::raw_pid, (&pcb,), pid),
        call_ensures(ProcessControlBlock::execute_path, (&pcb,), path),
    ensures
        leader <==> pcb.session_leader,
        pid == pcb.pid,
        path@ == pcb.execute_path@,
{
}

/// A frame that is pushed is the newest one until it is dropped, and dropping it
/// brings back the stack as it was. Asking for memory changes no frame.
pub proof fn law_stack_drops_what_was_pushed<T>(
    stack: &mut FrameStack<T>,
    slot: Option<SpareSlot<T>>,
    push: &mut FrameStack<T>,
    frame: T,
    last: Option<&T>,
    drop: &mut FrameStack<T>,
    unit: (),
)
    requires
        call_ensures(FrameStack::<T>::try_slot, (stack,), slot),
        *push == *final(stack),
        call_ensures(FrameStack::<T>::push, (push, frame), unit),
        call_ensures(FrameStack::<T>::last, (final(push),), last),
        *drop == *final(push),
        call_ensures(FrameStack::<T>::drop_last, (drop,), unit),
    ensures
        final(stack)@ == old(stack)@,
        last == Some(&frame),
        final(push)@.len() == old(stack)@.len() + 1,
        final(drop)@ == old(stack)@,
        final(drop).answers() == old(stack).answers().push(slot is Some),
{
    assert(old(stack)@.push(frame).drop_last() =~= old(stack)@);
}

/// What is taken out of a stack can be put back.
pub proof fn law_stack_takes_and_replaces<T>(
    stack: &mut FrameStack<T>,
    frames: Vec<T>,
    back: &mut FrameStack<T>,
    unit: (),
    len: usize,
)
    requires
        call_ensures(FrameStack::<T>::take, (stack,), frames),
        *back == *final(stack),
        call_ensures(FrameStack::<T>::replace, (back, frames), unit),
        call_ensures(FrameStack::<T>::len, (final(back),), len),
    ensures
        frames@ == old(stack)@,
        final(stack)@.len() == 0,
        final(back)@ == old(stack)@,
        len == old(stack)@.len(),
{
}

} // verus!
