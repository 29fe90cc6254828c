//! What holds of the scheduler's rules, whatever the threads do.
//!
//! The laws are stated over `Table`, the form in which the contracts of the
//! scheduler's operations describe its state, so that each applies to what
//! the operations leave behind.

use super::scheduler::{Dispatch, Table};
use super::tcb::{ThreadState, TCB};
use vstd::prelude::*;

verus! {

/// Every table has exactly one slot for the next new thread.
pub proof fn lemma_first_free<J>(table: Table<J>, id: int)
    requires
        table.is_first_free(id),
    ensures
        table.first_free() == id,
{
}

/// A new thread in the slot that is its due keeps the table consistent and
/// keeps mutual exclusion.
pub proof fn lemma_spawned_keeps<J>(table: Table<J>, id: int, tcb: TCB<J>)
    requires
        table.is_first_free(id),
        tcb.id == id,
        tcb.state == ThreadState::Uninit,
    ensures
        table.wf() ==> table.spawned(id, tcb).wf(),
        table.mutual_exclusion() ==> table.spawned(id, tcb).mutual_exclusion(),
{
    let after = table.spawned(id, tcb);
    if table.wf() {
        assert forall|i: int| #[trigger] after.slot_wf(i) by {
            assert(table.slot_wf(i));
        }
    }
    if table.mutual_exclusion() {
        assert forall|i: int| #[trigger]
            after.in_state(i, ThreadState::Running) implies after.is_current(i) by {
            assert(i != id ==> table.in_state(i, ThreadState::Running));
        }
    }
}

/// Making a thread ready keeps the table consistent and keeps mutual
/// exclusion.
pub proof fn lemma_yielded_keeps<J>(table: Table<J>, id: int)
    ensures
        table.wf() ==> table.yielded(id).wf(),
        table.mutual_exclusion() ==> table.yielded(id).mutual_exclusion(),
{
    let after = table.yielded(id);
    if table.wf() {
        assert forall|i: int| #[trigger] after.slot_wf(i) by {
            assert(table.slot_wf(i));
        }
    }
    if table.mutual_exclusion() {
        assert forall|i: int| #[trigger]
            after.in_state(i, ThreadState::Running) implies after.is_current(i) by {
            assert(table.in_state(i, ThreadState::Running));
        }
    }
}

/// Blocking a thread keeps the table consistent and keeps mutual exclusion.
pub proof fn lemma_blocked_keeps<J>(table: Table<J>, waiter: int, target: usize)
    ensures
        table.wf() ==> table.blocked(waiter, target).wf(),
        table.mutual_exclusion() ==> table.blocked(waiter, target).mutual_exclusion(),
{
    let after = table.blocked(waiter, target);
    if table.wf() {
        assert forall|i: int| #[trigger] after.slot_wf(i) by {
            assert(table.slot_wf(i));
        }
    }
    if table.mutual_exclusion() {
        assert forall|i: int| #[trigger]
            after.in_state(i, ThreadState::Running) implies after.is_current(i) by {
            assert(table.in_state(i, ThreadState::Running));
        }
    }
}

/// The end of a thread keeps the table consistent and keeps mutual exclusion.
pub proof fn lemma_exited_keeps<J>(table: Table<J>, id: int)
    ensures
        table.wf() ==> table.exited(id).wf(),
        table.mutual_exclusion() ==> table.exited(id).mutual_exclusion(),
{
    let after = table.exited(id);
    if table.wf() {
        assert forall|i: int| #[trigger] after.slot_wf(i) by {
            assert(table.slot_wf(i));
        }
    }
    if table.mutual_exclusion() {
        assert forall|i: int| #[trigger]
            after.in_state(i, ThreadState::Running) implies after.is_current(i) by {
            assert(table.in_state(i, ThreadState::Running));
        }
    }
}

/// Giving the processor to a ready thread keeps the table consistent and
/// keeps mutual exclusion: the thread that loses the processor does not stay
/// running.
pub proof fn lemma_dispatched_keeps<J>(table: Table<J>, next: int)
    requires
        table.is_ready(next),
        0 <= next <= usize::MAX,
    ensures
        table.wf() ==> table.dispatched(next).wf(),
        table.mutual_exclusion() ==> table.dispatched(next).mutual_exclusion(),
{
    let after = table.dispatched(next);
    if table.wf() {
        assert forall|i: int| #[trigger] after.slot_wf(i) by {
            assert(table.slot_wf(i));
        }
    }
    if table.mutual_exclusion() {
        assert forall|i: int| #[trigger]
            after.in_state(i, ThreadState::Running) implies after.is_current(i) by {
            assert(i != next ==> table.in_state(i, ThreadState::Running));
        }
    }
}

/// The choice of the next thread keeps the table consistent and keeps mutual
/// exclusion, whatever state the thread that was current is in.
pub proof fn lemma_run_next_keeps<J>(table: Table<J>, action: Dispatch, after: Table<J>)
    requires
        table.run_next_gives(action, after),
    ensures
        table.wf() ==> after.wf(),
        table.mutual_exclusion() ==> after.mutual_exclusion(),
{
    if let Dispatch::Switch { from, to } = action {
        lemma_dispatched_keeps(table, to as int);
    }
}

/// After the choice of the next thread only the chosen thread runs: in a
/// table with mutual exclusion, a thread that was current and still running
/// when another was chosen is ready afterwards.
pub proof fn lemma_outgoing_thread_gives_way<J>(table: Table<J>, outgoing: int, next: int)
    requires
        table.is_ready(next),
        table.gives_way_to(outgoing, next),
    ensures
        table.dispatched(next).is_ready(outgoing),
        table.dispatched(next).in_state(next, ThreadState::Running),
        table.dispatched(next).thread(outgoing) == table.thread(outgoing).with_state(
            ThreadState::Ready,
        ),
{
}

/// The selection names a ready thread wherever there is one: the choice is
/// `None` if and only if no thread of the table is ready, and a thread that
/// is chosen is in the table and ready.
pub proof fn lemma_selection_names_a_ready_thread<J>(table: Table<J>, choice: Option<usize>)
    requires
        table.selects(choice),
    ensures
        choice is None <==> (forall|id: int| !table.is_ready(id)),
        choice matches Some(id) ==> table.is_ready(id as int),
{
}

/// The choice of the next thread is determined by the table: two choices that
/// the selection rule allows are the same.
pub proof fn lemma_selection_is_unique<J>(table: Table<J>, a: Option<usize>, b: Option<usize>)
    requires
        table.selects(a),
        table.selects(b),
    ensures
        a == b,
{
}

/// Fairness of the selection: while the current thread `a` and another
/// thread `b` are both ready, the choice is never `a`. It is a ready thread
/// at or before `b` in table order, and it is `b` where no third thread is
/// ready.
pub proof fn lemma_selection_prefers_other<J>(
    table: Table<J>,
    a: int,
    b: int,
    choice: Option<usize>,
)
    requires
        table.is_current(a),
        table.is_ready(a),
        table.is_ready(b),
        a != b,
        table.selects(choice),
    ensures
        choice matches Some(c) && c != a && c <= b && table.is_ready(c as int),
        (forall|other: int| table.is_ready(other) ==> other == a || other == b) ==> choice
            == Some(b as usize),
{
}

/// The system halts exactly where nothing is ready: `run_next` answers
/// `Halt` if and only if no thread of the table is ready, and a halt leaves
/// the table as it was.
pub proof fn lemma_halt_iff_none_ready<J>(table: Table<J>, action: Dispatch, after: Table<J>)
    requires
        table.run_next_gives(action, after),
    ensures
        action == Dispatch::Halt <==> (forall|id: int| !table.is_ready(id)),
        action == Dispatch::Halt ==> after == table,
{
}

/// Once a thread has ended its slot is free, and nothing but a new thread
/// fills a free slot: making a thread ready, blocking one, ending another
/// and giving the processor to one all leave a free slot free.
pub proof fn lemma_ended_thread_is_gone<J>(table: Table<J>, id: int, other: int, target: usize)
    ensures
        !table.exited(id).is_live(id),
        !table.is_live(id) ==> {
            &&& !table.yielded(other).is_live(id)
            &&& !table.blocked(other, target).is_live(id)
            &&& !table.exited(other).is_live(id)
            &&& table.is_live(other) ==> !table.dispatched(other).is_live(id)
        },
{
}

/// A new thread takes the lowest free slot and no other: every other slot
/// holds what it held.
pub proof fn lemma_new_thread_takes_first_free<J>(table: Table<J>, id: int, tcb: TCB<J>)
    requires
        table.is_first_free(id),
    ensures
        table.spawned(id, tcb).is_live(id),
        !table.is_live(id),
        forall|low: int| 0 <= low < id ==> table.is_live(low),
        forall|other: int|
            other != id ==> (#[trigger] table.spawned(id, tcb).is_live(other) <==> table.is_live(
                other,
            )),
{
}

/// The end of a thread wakes those that wait for it: a thread blocked on
/// `target` is ready, and waits for nothing, once `target` has ended.
pub proof fn lemma_exit_wakes_waiter<J>(table: Table<J>, waiter: int, target: int)
    requires
        table.waits_for(waiter, target),
        table.is_live(target),
        waiter != target,
    ensures
        table.exited(target).is_ready(waiter),
        table.exited(target).thread(waiter).waiting_for is None,
{
}

/// The end of a thread leaves nobody waiting for it: afterwards no thread of
/// the table is blocked on the thread that ended.
pub proof fn lemma_exit_leaves_no_waiter<J>(table: Table<J>, target: int, waiter: int)
    requires
        table.is_live(target),
    ensures
        !table.exited(target).waits_for(waiter, target),
{
}

/// Only the end of its target wakes a waiter: a thread blocked on `target`
/// stays blocked on it when another thread is made, is made ready, is
/// blocked or ends, and when the processor is given to a ready thread.
pub proof fn lemma_waiter_stays_blocked<J>(
    table: Table<J>,
    waiter: int,
    target: int,
    other: int,
    third: usize,
    tcb: TCB<J>,
)
    requires
        table.waits_for(waiter, target),
        other != waiter,
    ensures
        table.yielded(other).waits_for(waiter, target),
        table.blocked(other, third).waits_for(waiter, target),
        other != target ==> table.exited(other).waits_for(waiter, target),
        table.is_ready(other) ==> table.dispatched(other).waits_for(waiter, target),
        table.is_first_free(other) ==> table.spawned(other, tcb).waits_for(waiter, target),
{
}

/// Threads move through their states by the steps of `may_become` alone. In
/// a consistent table that holds of every thread that an operation leaves in
/// the table: of making a thread ready, of the end of another thread, of
/// giving the processor to a ready thread, and of blocking a thread that is
/// running.
pub proof fn lemma_states_follow_the_life_cycle<J>(
    table: Table<J>,
    id: int,
    other: int,
    target: usize,
)
    requires
        table.wf(),
        table.is_live(id),
    ensures
        table.thread(id).state.may_become(table.yielded(other).thread(id).state),
        other != id ==> table.thread(id).state.may_become(table.exited(other).thread(id).state),
        table.is_ready(other) ==> table.thread(id).state.may_become(
            table.dispatched(other).thread(id).state,
        ),
        other != id || table.in_state(other, ThreadState::Running) ==> table.thread(
            id,
        ).state.may_become(table.blocked(other, target).thread(id).state),
{
    assert(table.slot_wf(id));
}

/// A thread that is blocked is never chosen to run.
pub proof fn lemma_blocked_is_not_chosen<J>(table: Table<J>, waiter: int, choice: Option<usize>)
    requires
        table.in_state(waiter, ThreadState::Blocked),
        table.selects(choice),
    ensures
        choice matches Some(c) ==> c != waiter,
{
}

} // verus!
