//! Cooperative threads: control blocks, the scheduler and thread handles.
//!
//! The functions of this module are what code that owns threads calls: make
//! a thread, start it, give up the processor, wait for a thread. Each takes
//! the scheduler it acts on. Where a call ends in a choice of the next
//! thread, it returns the scheduler's decision for the caller to carry out.

pub mod laws;
pub mod scheduler;
pub mod tcb;

use scheduler::{Dispatch, Scheduler};
use tcb::{ThreadState, TCB};
use vstd::prelude::*;

verus! {

/// Number of machine words in a thread's private stack.
pub const STACK_SIZE: usize = 1024;

/// Names a thread of a scheduler.
#[derive(Debug, Clone, Copy)]
pub struct ThreadHandle {
    id: usize,
}

impl View for ThreadHandle {
    type V = usize;

    closed spec fn view(&self) -> usize {
        self.id
    }
}

impl ThreadHandle {
    /// The id of the thread that the handle names.
    pub fn id(&self) -> (id: usize)
        ensures
            id == self@,
    {
        self.id
    }

    /// Makes the thread ready to run. The caller keeps the processor: the
    /// thread runs once the caller yields, blocks or ends.
    pub fn start<J>(self, sched: &mut Scheduler<J>)
        ensures
            final(sched)@ == old(sched)@.yielded(self@ as int),
            old(sched)@.wf() ==> final(sched)@.wf(),
            old(sched)@.mutual_exclusion() ==> final(sched)@.mutual_exclusion(),
    {
        sched.yield_thread(self.id);
    }
}

/// Makes a thread for `job` and returns its handle. The thread does not run
/// before it is started.
pub fn new_thread<J>(sched: &mut Scheduler<J>, job: J) -> (handle: ThreadHandle)
    ensures
        old(sched)@.is_first_free(handle@ as int),
        final(sched)@ == old(sched)@.spawned(handle@ as int, final(sched)@.thread(handle@ as int)),
        final(sched)@.thread(handle@ as int).is_fresh(handle@, Some(job), old(sched)@.entry),
        old(sched)@.wf() ==> final(sched)@.wf(),
        old(sched)@.mutual_exclusion() ==> final(sched)@.mutual_exclusion(),
{
    let id = sched.add_thread(job);
    ThreadHandle { id }
}

/// Brings the scheduler to life: makes a thread for `main_thread`, starts it
/// and chooses the thread to run. The answer is the handle of the new thread
/// and the scheduler's decision. On an empty scheduler the decision is the
/// very first switch, from the idle record into that thread.
pub fn init<J>(sched: &mut Scheduler<J>, main_thread: J) -> (started: (ThreadHandle, Dispatch))
    requires
        old(sched)@.wf(),
    ensures
        ({
            let (handle, action) = started;
            let id = handle@ as int;
            let tcb = final(sched)@.thread(id).with_state(ThreadState::Uninit);
            &&& old(sched)@.is_first_free(id)
            &&& tcb.is_fresh(handle@, Some(main_thread), old(sched)@.entry)
            &&& old(sched)@.spawned(id, tcb).yielded(id).run_next_gives(action, final(sched)@)
        }),
        final(sched)@.wf(),
        started.1 != Dispatch::Halt,
        old(sched)@.mutual_exclusion() ==> final(sched)@.mutual_exclusion(),
        old(sched)@.slots.len() == 0 && old(sched)@.current is None ==> {
            &&& started.0@ == 0
            &&& started.1 == (Dispatch::Switch { from: None, to: 0 })
            &&& final(sched)@.current == Some(0usize)
            &&& final(sched)@.in_state(0, ThreadState::Running)
            &&& final(sched)@.mutual_exclusion()
        },
{
    let h = new_thread(sched, main_thread);
    h.start(sched);
    assert(sched@.is_ready(h@ as int));
    let action = sched.run_next();
    (h, action)
}

/// The handle of the running thread, if a thread is running.
pub fn current_thread<J>(sched: &Scheduler<J>) -> (handle: Option<ThreadHandle>)
    ensures
        match handle {
            Some(h) => sched@.current == Some(h@),
            None => sched@.current is None,
        },
{
    match sched.current() {
        Some(id) => Some(ThreadHandle { id }),
        None => None,
    }
}

/// First half of the routine at which every thread starts: takes the job of
/// the running thread out of its block and returns it with the thread's id.
/// The caller runs the job, holding nothing of the scheduler meanwhile, and
/// then calls `thread_exit` with the id.
pub fn thread_entry<J>(sched: &mut Scheduler<J>) -> (started: (usize, Option<J>))
    requires
        old(sched)@.current matches Some(c) && old(sched)@.is_live(c as int),
    ensures
        old(sched)@.current == Some(started.0),
        started.1 == old(sched)@.thread(started.0 as int).job,
        final(sched)@ == old(sched)@.with_slot(
            started.0 as int,
            Some(TCB { job: None, ..old(sched)@.thread(started.0 as int) }),
        ),
        old(sched)@.wf() ==> final(sched)@.wf(),
        old(sched)@.mutual_exclusion() ==> final(sched)@.mutual_exclusion(),
{
    let current_id = sched.current().unwrap();
    let t = sched.get_thread(current_id).unwrap();
    let job = t.job.take();
    proof {
        let before = old(sched)@;
        let after = sched@;
        if before.wf() {
            assert forall|i: int| #[trigger] after.slot_wf(i) by {
                assert(before.slot_wf(i));
            }
        }
        if before.mutual_exclusion() {
            assert forall|i: int| #[trigger]
                after.in_state(i, ThreadState::Running) implies after.is_current(i) by {
                assert(before.in_state(i, ThreadState::Running));
            }
        }
    }
    (current_id, job)
}

/// Second half of the routine at which every thread starts, for when the job
/// has returned: ends thread `id`, which wakes the threads that wait for it,
/// and chooses the thread to run next.
pub fn thread_exit<J>(sched: &mut Scheduler<J>, id: usize) -> (action: Dispatch)
    requires
        old(sched)@.wf(),
    ensures
        old(sched)@.exited(id as int).run_next_gives(action, final(sched)@),
        final(sched)@.wf(),
        !final(sched)@.is_live(id as int),
        old(sched)@.mutual_exclusion() ==> final(sched)@.mutual_exclusion(),
{
    sched.exit_thread(id);
    sched.run_next()
}

/// The running thread gives up the processor but stays ready: it runs again
/// when it is next chosen, at once where no other thread is ready.
pub fn yield_now<J>(sched: &mut Scheduler<J>) -> (action: Dispatch)
    requires
        old(sched)@.wf(),
        old(sched)@.current is Some,
    ensures
        old(sched)@.yielded(old(sched)@.current.unwrap() as int).run_next_gives(
            action,
            final(sched)@,
        ),
        final(sched)@.wf(),
        action != Dispatch::Halt,
        old(sched)@.mutual_exclusion() ==> final(sched)@.mutual_exclusion(),
{
    let current_id = sched.current().unwrap();
    sched.yield_thread(current_id);
    assert(sched@.is_ready(current_id as int));
    sched.run_next()
}

/// The running thread waits for the end of the thread that `handle` names.
///
/// Waiting for oneself, and waiting for a thread that is not in the table or
/// has ended, does nothing and chooses no thread: the answer is `None` and
/// the caller goes on. Otherwise the caller is blocked on the target and the
/// next thread is chosen; the caller is ready again once the target ends.
pub fn join<J>(sched: &mut Scheduler<J>, handle: ThreadHandle) -> (action: Option<Dispatch>)
    requires
        old(sched)@.wf(),
        old(sched)@.current is Some,
    ensures
        ({
            let me = old(sched)@.current.unwrap();
            if handle@ == me || !old(sched)@.can_wait_for(handle@ as int) {
                action is None && final(sched)@ == old(sched)@
            } else {
                &&& action is Some
                &&& old(sched)@.blocked(me as int, handle@).run_next_gives(
                    action.unwrap(),
                    final(sched)@,
                )
                &&& final(sched)@.waits_for(me as int, handle@ as int)
            }
        }),
        final(sched)@.wf(),
        old(sched)@.mutual_exclusion() ==> final(sched)@.mutual_exclusion(),
{
    let current_id = sched.current().unwrap();
    if handle.id == current_id {
        return None;
    }
    // A thread that is gone cannot wake the caller: there is nothing to
    // wait for, and the caller keeps the processor.
    let waitable = match sched.find_thread(handle.id) {
        Some(target) => target.state != ThreadState::Terminated,
        None => false,
    };
    if !waitable {
        return None;
    }
    sched.block_thread(current_id, handle.id);
    Some(sched.run_next())
}

} // verus!
