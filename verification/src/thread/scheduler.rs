//! The scheduler: the table of threads and the rules that move them from
//! state to state.
//!
//! The scheduler never touches the processor. `run_next` picks the thread to
//! run and says which register records take part in the switch; the program
//! that embeds the scheduler performs the switch, or halts the machine.

use super::laws::{
    lemma_blocked_keeps, lemma_dispatched_keeps, lemma_exited_keeps,
    lemma_selection_names_a_ready_thread, lemma_spawned_keeps, lemma_yielded_keeps,
};
use super::tcb::{ThreadContext, ThreadState, TCB};
use vstd::prelude::*;

verus! {

/// What `run_next` decided. The caller carries it out.
#[derive(Debug, Clone, Copy, PartialEq, Eq, Structural)]
pub enum Dispatch {
    /// No thread can run: the machine is to be powered down.
    Halt,
    /// Save the running flow's registers into the record of `from` (the idle
    /// record where `from` is `None`) and resume thread `to`.
    Switch { from: Option<usize>, to: usize },
}

impl Dispatch {
    /// The thread that runs next, if any does.
    pub open spec fn target(self) -> Option<usize> {
        match self {
            Dispatch::Halt => None,
            Dispatch::Switch { to, .. } => Some(to),
        }
    }
}

/// The scheduler as its rules read it: who is current, what each slot holds,
/// the idle record and the address at which new threads start.
#[verifier::ext_equal]
pub struct Table<J> {
    pub current: Option<usize>,
    pub slots: Seq<Option<TCB<J>>>,
    pub idle_context: ThreadContext,
    pub entry: usize,
}

impl<J> Table<J> {
    /// Slot `id` holds a thread.
    pub open spec fn is_live(self, id: int) -> bool {
        0 <= id < self.slots.len() && self.slots[id] is Some
    }

    /// The thread in slot `id`; meaningful where the slot is live.
    pub open spec fn thread(self, id: int) -> TCB<J> {
        self.slots[id].unwrap()
    }

    /// Slot `id` holds a thread in state `state`.
    pub open spec fn in_state(self, id: int, state: ThreadState) -> bool {
        self.is_live(id) && self.thread(id).state == state
    }

    /// Thread `id` is the current one.
    pub open spec fn is_current(self, id: int) -> bool {
        self.current matches Some(c) && c == id
    }

    /// Thread `id` is ready to run.
    pub open spec fn is_ready(self, id: int) -> bool {
        self.in_state(id, ThreadState::Ready)
    }

    /// Thread `id` is blocked until thread `target` ends.
    pub open spec fn waits_for(self, id: int, target: int) -> bool {
        &&& self.in_state(id, ThreadState::Blocked)
        &&& self.thread(id).waiting_for matches Some(t) && t == target
    }

    /// `id` is the slot that the next new thread gets: the lowest free one,
    /// or a new one at the end where none is free.
    pub open spec fn is_first_free(self, id: int) -> bool {
        &&& 0 <= id <= self.slots.len()
        &&& id < self.slots.len() ==> self.slots[id] is None
        &&& forall|below: int| 0 <= below < id ==> self.slots[below] is Some
    }

    /// The slot that the next new thread gets.
    pub open spec fn first_free(self) -> int {
        choose|id: int| self.is_first_free(id)
    }

    /// The table after thread `tcb` was put into slot `id`, which is free or
    /// one past the end.
    pub open spec fn spawned(self, id: int, tcb: TCB<J>) -> Self {
        if id < self.slots.len() {
            self.with_slot(id, Some(tcb))
        } else {
            Table { slots: self.slots.push(Some(tcb)), ..self }
        }
    }

    /// The table after `yield_thread(id)`: the thread is ready; a table
    /// without that thread is unchanged.
    pub open spec fn yielded(self, id: int) -> Self {
        if self.is_live(id) {
            self.with_slot(id, Some(self.thread(id).with_state(ThreadState::Ready)))
        } else {
            self
        }
    }

    /// A thread may wait for the end of `target`: the thread is in the table
    /// and has not ended.
    pub open spec fn can_wait_for(self, target: int) -> bool {
        self.is_live(target) && self.thread(target).state != ThreadState::Terminated
    }

    /// The table after `block_thread(waiter, target)`: the waiter is blocked
    /// on the target where the target can be waited for and the waiter is in
    /// the table; otherwise the table is unchanged.
    pub open spec fn blocked(self, waiter: int, target: usize) -> Self {
        if self.can_wait_for(target as int) && self.is_live(waiter) {
            self.with_slot(
                waiter,
                Some(
                    TCB {
                        state: ThreadState::Blocked,
                        waiting_for: Some(target),
                        ..self.thread(waiter)
                    },
                ),
            )
        } else {
            self
        }
    }

    /// What slot `slot` holds after thread `id`, which is in the table, has
    /// ended: the thread's own slot is free, a thread that waited for it is
    /// ready and waits no more, every other slot is as it was.
    pub open spec fn slot_after_exit(self, slot: int, id: int) -> Option<TCB<J>> {
        if slot == id {
            None
        } else if self.waits_for(slot, id) {
            Some(TCB { state: ThreadState::Ready, waiting_for: None, ..self.thread(slot) })
        } else {
            self.slots[slot]
        }
    }

    /// The table after `exit_thread(id)`: nothing changes where the thread is
    /// not in the table; otherwise its slot is freed, it is no longer
    /// current, and its waiters are woken.
    pub open spec fn exited(self, id: int) -> Self {
        if self.is_live(id) {
            Table {
                current: if self.is_current(id) {
                    None
                } else {
                    self.current
                },
                slots: Seq::new(self.slots.len(), |slot: int| self.slot_after_exit(slot, id)),
                ..self
            }
        } else {
            self
        }
    }

    /// The choice that `run_next` makes. A ready thread is chosen; it is the
    /// first in table order among the ready threads other than the current
    /// one, and the current thread only where no other thread is ready.
    /// `None` is chosen only where no thread is ready.
    pub open spec fn selects(self, choice: Option<usize>) -> bool {
        match choice {
            Some(id) => {
                &&& self.is_ready(id as int)
                &&& if self.is_current(id as int) {
                    forall|other: int| #[trigger] self.is_ready(other) ==> other == id
                } else {
                    forall|before: int|
                        0 <= before < id && #[trigger] self.is_ready(before) ==> self.is_current(
                            before,
                        )
                }
            },
            None => forall|id: int| !#[trigger] self.is_ready(id),
        }
    }

    /// Thread `id` is the current one, is still running, and is not `next`:
    /// it is the thread that loses the processor when `next` is chosen.
    pub open spec fn gives_way_to(self, id: int, next: int) -> bool {
        self.is_current(id) && id != next && self.in_state(id, ThreadState::Running)
    }

    /// What slot `slot` holds after thread `next` was given the processor:
    /// `next` is running, the thread that lost the processor to it is ready,
    /// every other slot is as it was.
    pub open spec fn slot_after_dispatch(self, slot: int, next: int) -> Option<TCB<J>> {
        if slot == next {
            Some(self.thread(next).with_state(ThreadState::Running))
        } else if self.gives_way_to(slot, next) {
            Some(self.thread(slot).with_state(ThreadState::Ready))
        } else {
            self.slots[slot]
        }
    }

    /// The table after thread `next` was given the processor. The thread is
    /// running and current. A thread that was current and still running
    /// gives way: it is ready again, so that no two threads run.
    pub open spec fn dispatched(self, next: int) -> Self {
        Table {
            current: Some(next as usize),
            slots: Seq::new(self.slots.len(), |slot: int| self.slot_after_dispatch(slot, next)),
            ..self
        }
    }

    /// `run_next` on this table may answer `action` and leave `after`: the
    /// action names the thread that `selects` allows, the table afterwards
    /// is as `dispatched` says, and a halt changes nothing.
    pub open spec fn run_next_gives(self, action: Dispatch, after: Self) -> bool {
        &&& self.selects(action.target())
        &&& match action {
            Dispatch::Halt => after == self,
            Dispatch::Switch { from, to } => from == self.current && after == self.dispatched(
                to as int,
            ),
        }
    }

    /// The register record into which a switch away from `from` saves: the
    /// thread's own, or the idle record where no thread was current.
    pub open spec fn source_context(self, from: Option<usize>) -> ThreadContext {
        match from {
            Some(id) => self.thread(id as int).context,
            None => self.idle_context,
        }
    }

    /// The same table with the record that `source_context` names replaced.
    pub open spec fn with_source_context(self, from: Option<usize>, context: ThreadContext) -> Self {
        match from {
            Some(id) => self.with_slot(
                id as int,
                Some(TCB { context, ..self.thread(id as int) }),
            ),
            None => Table { idle_context: context, ..self },
        }
    }

    /// How many of the slots before `upto` hold a thread.
    pub open spec fn live_before(self, upto: int) -> nat
        decreases upto,
    {
        if upto <= 0 {
            0
        } else if self.is_live(upto - 1) {
            self.live_before(upto - 1) + 1
        } else {
            self.live_before(upto - 1)
        }
    }

    /// How many threads the table holds.
    pub open spec fn thread_count(self) -> nat {
        self.live_before(self.slots.len() as int)
    }

    /// The same table with slot `id` replaced.
    pub open spec fn with_slot(self, id: int, slot: Option<TCB<J>>) -> Self {
        Table { slots: self.slots.update(id, slot), ..self }
    }

    /// What holds of one slot in a consistent table: a thread knows its own
    /// slot, a thread that has ended is gone from the table, and a blocked
    /// thread waits for a thread that is still there.
    pub open spec fn slot_wf(self, id: int) -> bool {
        self.is_live(id) ==> {
            let t = self.thread(id);
            &&& t.id == id
            &&& t.state != ThreadState::Terminated
            &&& t.state == ThreadState::Blocked ==> (t.waiting_for matches Some(target)
                && self.is_live(target as int))
        }
    }

    /// The table is consistent: the current thread, if there is one, is in
    /// the table, and every slot is as `slot_wf` says.
    pub open spec fn wf(self) -> bool {
        &&& self.current matches Some(c) ==> self.is_live(c as int)
        &&& forall|id: int| #[trigger] self.slot_wf(id)
    }

    /// At most one thread is running, and it is the current one.
    pub open spec fn mutual_exclusion(self) -> bool {
        forall|id: int| #[trigger] self.in_state(id, ThreadState::Running) ==> self.is_current(id)
    }
}

/// The table of threads, the identity of the one that runs, and the idle
/// register record that is the source of a switch while no thread is current.
pub struct Scheduler<J> {
    /// The running thread. `None` before the first thread is run, and after
    /// the running thread has ended until another is chosen.
    pub current: Option<usize>,
    /// Index is thread id; a free slot is `None` and is used again.
    threads: Vec<Option<TCB<J>>>,
    idle_context: ThreadContext,
    /// Address at which every new thread starts.
    entry: usize,
}

impl<J> View for Scheduler<J> {
    type V = Table<J>;

    closed spec fn view(&self) -> Table<J> {
        Table {
            current: self.current,
            slots: self.threads@,
            idle_context: self.idle_context,
            entry: self.entry,
        }
    }
}

impl<J> Scheduler<J> {
    /// An empty scheduler whose threads will start at `entry`, the address of
    /// the routine that takes a new thread's job and runs it.
    pub fn new(entry: usize) -> (sched: Self)
        ensures
            sched@.current is None,
            sched@.slots.len() == 0,
            sched@.idle_context.is_zero(),
            sched@.entry == entry,
            sched@.wf(),
            sched@.mutual_exclusion(),
    {
        Scheduler {
            current: None,
            threads: Vec::new(),
            idle_context: ThreadContext::default(),
            entry,
        }
    }

    /// The running thread, if there is one.
    pub fn current(&self) -> (current: Option<usize>)
        ensures
            current == self@.current,
    {
        self.current
    }

    /// How many threads the table holds.
    pub fn thread_count(&self) -> (count: usize)
        ensures
            count == self@.thread_count(),
    {
        let mut count: usize = 0;
        let mut id: usize = 0;
        while id < self.threads.len()
            invariant
                id <= self.threads.len(),
                count <= id,
                count == self@.live_before(id as int),
            decreases self.threads.len() - id,
        {
            if self.threads[id].is_some() {
                count += 1;
            }
            id += 1;
        }
        count
    }

    /// Whether the table is consistent. An unverified caller can ask before
    /// it calls what requires a consistent table.
    pub fn is_well_formed(&self) -> (ok: bool)
        ensures
            ok == self@.wf(),
    {
        if let Some(c) = self.current {
            if self.find_thread(c).is_none() {
                return false;
            }
        }
        let mut id: usize = 0;
        while id < self.threads.len()
            invariant
                id <= self.threads.len(),
                forall|below: int| 0 <= below < id ==> #[trigger] self@.slot_wf(below),
            decreases self.threads.len() - id,
        {
            if let Some(t) = &self.threads[id] {
                let known = t.id == id && t.state != ThreadState::Terminated;
                let waits = match t.waiting_for {
                    Some(target) => self.find_thread(target).is_some(),
                    None => false,
                };
                if !known || (t.state == ThreadState::Blocked && !waits) {
                    assert(!self@.slot_wf(id as int));
                    return false;
                }
            }
            id += 1;
        }
        true
    }

    /// Adds a thread for `job` and returns its id. The thread takes the
    /// lowest free slot, so that ids stay small; the table grows only when
    /// every slot is taken. The thread is not started and the job is not run.
    pub fn add_thread(&mut self, job: J) -> (id: usize)
        ensures
            old(self)@.is_first_free(id as int),
            final(self)@ == old(self)@.spawned(id as int, final(self)@.thread(id as int)),
            final(self)@.thread(id as int).is_fresh(id, Some(job), old(self)@.entry),
            old(self)@.wf() ==> final(self)@.wf(),
            old(self)@.mutual_exclusion() ==> final(self)@.mutual_exclusion(),
    {
        let mut id: usize = 0;
        while id < self.threads.len() && self.threads[id].is_some()
            invariant
                id <= self.threads.len(),
                *self == *old(self),
                forall|below: int| 0 <= below < id ==> self.threads@[below] is Some,
            decreases self.threads.len() - id,
        {
            id += 1;
        }
        if id == self.threads.len() {
            self.threads.push(None);
        }
        let new_thread = TCB::new(id, Some(job), self.entry);
        self.threads[id] = Some(new_thread);
        proof {
            let tcb = self@.thread(id as int);
            assert(self@.slots =~= old(self)@.spawned(id as int, tcb).slots);
            lemma_spawned_keeps(old(self)@, id as int, tcb);
        }
        id
    }

    /// Makes thread `thread_id` ready to run. Nothing happens where no such
    /// thread is in the table.
    pub fn yield_thread(&mut self, thread_id: usize)
        ensures
            final(self)@ == old(self)@.yielded(thread_id as int),
            old(self)@.wf() ==> final(self)@.wf(),
            old(self)@.mutual_exclusion() ==> final(self)@.mutual_exclusion(),
    {
        if let Some(thread) = self.get_thread(thread_id) {
            thread.state = ThreadState::Ready;
        }
        proof {
            lemma_yielded_keeps(old(self)@, thread_id as int);
        }
    }

    /// Blocks thread `current_id` until thread `target_id` ends. Nothing
    /// happens where the target is not in the table or has ended, so that
    /// joining a thread that is already gone does not block; nor where the
    /// waiter is not in the table.
    pub fn block_thread(&mut self, current_id: usize, target_id: usize)
        ensures
            final(self)@ == old(self)@.blocked(current_id as int, target_id),
            old(self)@.wf() ==> final(self)@.wf(),
            old(self)@.mutual_exclusion() ==> final(self)@.mutual_exclusion(),
    {
        if let Some(target) = self.find_thread(target_id) {
            if target.state == ThreadState::Terminated {
                return ;
            }
        } else {
            return ;
        }
        if let Some(current) = self.get_thread(current_id) {
            current.state = ThreadState::Blocked;
            current.waiting_for = Some(target_id);
        }
        proof {
            lemma_blocked_keeps(old(self)@, current_id as int, target_id);
        }
    }

    /// Ends thread `thread_id`: frees its slot, with the stack and a job that
    /// was never taken; clears `current` if it named the thread; and makes
    /// ready every thread that was blocked waiting for it. Nothing happens
    /// where no such thread is in the table.
    pub fn exit_thread(&mut self, thread_id: usize)
        ensures
            final(self)@ == old(self)@.exited(thread_id as int),
            old(self)@.wf() ==> final(self)@.wf(),
            old(self)@.mutual_exclusion() ==> final(self)@.mutual_exclusion(),
    {
        if thread_id >= self.threads.len() {
            return ;
        }
        let mut thread = match self.threads[thread_id].take() {
            Some(t) => t,
            None => {
                return ;
            },
        };
        // The thread has ended. Its block leaves the table for good and is
        // dropped at the end of this call, with its stack and its job.
        thread.state = ThreadState::Terminated;

        // The slot is free now: `current` must not go on naming it.
        if self.current == Some(thread_id) {
            self.current = None;
        }
        // Wake the threads that waited for this one.
        let ghost before = old(self)@;
        let ghost id = thread_id as int;
        let mut slot: usize = 0;
        while slot < self.threads.len()
            invariant
                before == old(self)@,
                id == thread_id as int,
                before.is_live(id),
                slot <= self.threads.len(),
                self@.current == before.exited(id).current,
                self@.idle_context == before.idle_context,
                self@.entry == before.entry,
                self@.slots.len() == before.slots.len(),
                forall|i: int| 0 <= i < slot ==> self@.slots[i] == before.slot_after_exit(i, id),
                forall|i: int|
                    slot <= i < self@.slots.len() ==> self@.slots[i] == (if i == id {
                        None
                    } else {
                        before.slots[i]
                    }),
            decreases self.threads.len() - slot,
        {
            if let Some(t) = &mut self.threads[slot] {
                if t.state == ThreadState::Blocked && t.waiting_for == Some(thread_id) {
                    t.state = ThreadState::Ready;
                    t.waiting_for = None;
                }
            }
            slot += 1;
        }
        proof {
            lemma_exited_keeps(before, id);
        }
    }

    /// Chooses the thread to run next and makes it the running, current one.
    ///
    /// A ready thread other than the current one is preferred, the first in
    /// table order; the current thread is chosen only where it is ready and
    /// no other is. Where another thread is chosen while the current one is
    /// still running, the current one becomes ready: it loses the processor
    /// and may be chosen again. The answer tells the caller to switch to the
    /// chosen thread, saving into the record of the thread that was current
    /// (the idle record where none was). Where no thread is ready the answer
    /// is `Halt` and nothing changes.
    pub fn run_next(&mut self) -> (action: Dispatch)
        requires
            old(self)@.wf(),
        ensures
            old(self)@.run_next_gives(action, final(self)@),
            final(self)@.wf(),
            (forall|id: int| !old(self)@.is_ready(id)) <==> action == Dispatch::Halt,
            old(self)@.mutual_exclusion() ==> final(self)@.mutual_exclusion(),
    {
        let current_id = self.current;
        let next_id = match self.find_ready_thread_id() {
            Some(id) => id,
            None => {
                return Dispatch::Halt;
            },
        };
        // The thread that loses the processor is no longer running.
        if let Some(id) = current_id {
            if id != next_id {
                if let Some(outgoing) = self.get_thread(id) {
                    if outgoing.state == ThreadState::Running {
                        outgoing.state = ThreadState::Ready;
                    }
                }
            }
        }
        let next_thread = self.get_thread(next_id).unwrap();
        next_thread.state = ThreadState::Running;
        self.current = Some(next_id);
        proof {
            assert(self@.slots =~= old(self)@.dispatched(next_id as int).slots);
            lemma_dispatched_keeps(old(self)@, next_id as int);
        }
        Dispatch::Switch { from: current_id, to: next_id }
    }

    /// The record into which the switch that `run_next` asked for saves the
    /// registers of the flow that gives up the processor.
    pub fn switch_source(&mut self, from: Option<usize>) -> (context: &mut ThreadContext)
        requires
            from matches Some(id) ==> old(self)@.is_live(id as int),
        ensures
            *context == old(self)@.source_context(from),
            final(self)@ == old(self)@.with_source_context(from, *final(context)),
    {
        match from {
            Some(id) => &mut self.get_thread(id).unwrap().context,
            None => &mut self.idle_context,
        }
    }

    /// The record from which the switch that `run_next` asked for loads the
    /// registers of thread `to`.
    pub fn switch_target(&self, to: usize) -> (context: &ThreadContext)
        requires
            self@.is_live(to as int),
        ensures
            *context == self@.thread(to as int).context,
    {
        &self.find_thread(to).unwrap().context
    }

    /// The choice of `run_next`: the first ready thread that is not the
    /// current one, else the current thread if it is ready. The answer is
    /// `None` exactly where no thread of the table is ready, and otherwise
    /// names a thread that is.
    pub fn find_ready_thread_id(&self) -> (choice: Option<usize>)
        requires
            self@.wf(),
        ensures
            self@.selects(choice),
            choice is None <==> (forall|id: int| !self@.is_ready(id)),
            choice matches Some(id) ==> self@.is_ready(id as int),
    {
        let current_id = self.current;
        let mut id: usize = 0;
        while id < self.threads.len()
            invariant
                id <= self.threads.len(),
                current_id == self.current,
                self@.wf(),
                forall|before: int|
                    0 <= before < id && #[trigger] self@.is_ready(before) ==> self@.is_current(
                        before,
                    ),
            decreases self.threads.len() - id,
        {
            if let Some(t) = &self.threads[id] {
                assert(self@.slot_wf(id as int));
                if t.state == ThreadState::Ready && Some(t.id) != current_id {
                    proof {
                        lemma_selection_names_a_ready_thread(self@, Some(id));
                    }
                    return Some(id);
                }
            }
            id += 1;
        }
        let choice = match current_id {
            Some(id) => {
                let ready = match self.find_thread(id) {
                    Some(t) => t.state == ThreadState::Ready,
                    None => false,
                };
                if ready {
                    Some(id)
                } else {
                    None
                }
            },
            None => None,
        };
        proof {
            lemma_selection_names_a_ready_thread(self@, choice);
        }
        choice
    }

    /// The thread in slot `thread_id`, for changing it in place.
    pub(crate) fn get_thread(&mut self, thread_id: usize) -> (found: Option<&mut TCB<J>>)
        ensures
            match found {
                Some(thread) => {
                    &&& old(self)@.is_live(thread_id as int)
                    &&& *thread == old(self)@.thread(thread_id as int)
                    &&& final(self)@ == old(self)@.with_slot(thread_id as int, Some(*final(thread)))
                },
                None => !old(self)@.is_live(thread_id as int) && final(self)@ == old(self)@,
            },
    {
        if thread_id < self.threads.len() {
            match &mut self.threads[thread_id] {
                Some(thread) => Some(thread),
                None => None,
            }
        } else {
            None
        }
    }

    /// The thread in slot `thread_id`, if the slot holds one.
    pub fn find_thread(&self, thread_id: usize) -> (found: Option<&TCB<J>>)
        ensures
            match found {
                Some(thread) => self@.is_live(thread_id as int) && *thread == self@.thread(
                    thread_id as int,
                ),
                None => !self@.is_live(thread_id as int),
            },
    {
        if thread_id < self.threads.len() {
            match &self.threads[thread_id] {
                Some(thread) => Some(thread),
                None => None,
            }
        } else {
            None
        }
    }
}

} // verus!
