//! The thread control block and the register context it saves.

use super::STACK_SIZE;
use vstd::prelude::*;

verus! {

/// Alignment, in bytes, that the platform asks of a stack pointer at a call.
pub const STACK_ALIGN: usize = 16;

/// Where a thread stands in its life.
///
/// `Uninit -> Ready -> Running -> {Ready | Blocked | Terminated}`, and
/// `Blocked -> Ready`. Nothing leaves `Terminated`.
#[derive(Debug, Clone, Copy, PartialEq, Eq, Structural)]
pub enum ThreadState {
    Uninit,
    Running,
    Ready,
    Blocked,
    Terminated,
}

impl ThreadState {
    /// The steps of a thread's life: it is started, is given the processor,
    /// gives it up by yielding, blocking or ending, and is woken. Staying in
    /// a state counts as a step.
    pub open spec fn may_become(self, next: ThreadState) -> bool {
        ||| self == next
        ||| self == ThreadState::Uninit && next == ThreadState::Ready
        ||| self == ThreadState::Ready && next == ThreadState::Running
        ||| self == ThreadState::Running && next == ThreadState::Ready
        ||| self == ThreadState::Running && next == ThreadState::Blocked
        ||| self == ThreadState::Running && next == ThreadState::Terminated
        ||| self == ThreadState::Blocked && next == ThreadState::Ready
    }
}

/// Number of machine words in a register record.
pub const CONTEXT_WORDS: usize = 14;

/// Saved registers of a suspended flow: where execution resumes.
///
/// The record is one array of words, so that its layout in memory is fixed:
/// the routine that switches between flows addresses the registers by their
/// place in the record. Word 0 is the return address, word 1 the stack
/// pointer, words 2 to 13 are the twelve callee-saved registers.
#[derive(Debug, Clone, Copy)]
pub struct ThreadContext {
    pub regs: [usize; CONTEXT_WORDS],
}

/// Size in bytes of a thread's stack.
pub open spec fn stack_bytes() -> nat {
    STACK_SIZE as nat * vstd::layout::size_of::<usize>()
}

/// The highest address at or below `addr` that is a multiple of `STACK_ALIGN`.
pub open spec fn align_down(addr: int) -> int {
    addr - addr % (STACK_ALIGN as int)
}

/// The initial stack pointer of a thread whose stack starts at `base`: the
/// end of the stack, aligned downwards.
pub open spec fn initial_sp(base: usize) -> int {
    align_down(base + stack_bytes())
}

impl ThreadContext {
    /// The return address: where the flow goes on.
    pub open spec fn spec_ra(&self) -> usize {
        self.regs[0]
    }

    /// The stack pointer.
    pub open spec fn spec_sp(&self) -> usize {
        self.regs[1]
    }

    /// The callee-saved register `i`, for `i` from 0 to 11.
    pub open spec fn spec_s(&self, i: usize) -> usize {
        self.regs[2 + i]
    }

    /// All registers zero.
    pub open spec fn is_zero(&self) -> bool {
        forall|i: int| 0 <= i < CONTEXT_WORDS ==> self.regs[i] == 0
    }

    /// The callee-saved registers are zero.
    pub open spec fn callee_saved_zero(&self) -> bool {
        forall|i: int| 2 <= i < CONTEXT_WORDS ==> self.regs[i] == 0
    }

    /// The return address: where the flow goes on.
    #[verifier::when_used_as_spec(spec_ra)]
    pub fn ra(&self) -> (ra: usize)
        ensures
            ra == self.spec_ra(),
    {
        self.regs[0]
    }

    /// The stack pointer.
    #[verifier::when_used_as_spec(spec_sp)]
    pub fn sp(&self) -> (sp: usize)
        ensures
            sp == self.spec_sp(),
    {
        self.regs[1]
    }

    /// The callee-saved register `i`, for `i` from 0 to 11.
    #[verifier::when_used_as_spec(spec_s)]
    pub fn s(&self, i: usize) -> (value: usize)
        requires
            i < 12,
        ensures
            value == self.spec_s(i),
    {
        self.regs[2 + i]
    }

    /// The context from which a new thread first runs: it resumes at `entry`
    /// with the stack pointer at the aligned end of the stack that starts at
    /// `stack_base`.
    pub fn initial(entry: usize, stack_base: usize) -> (cx: Self)
        requires
            stack_base + stack_bytes() <= usize::MAX,
        ensures
            cx.ra() == entry,
            cx.sp() == initial_sp(stack_base),
            cx.callee_saved_zero(),
    {
        broadcast use vstd::layout::layout_of_primitives;

        let sp_top = stack_base + STACK_SIZE * core::mem::size_of::<usize>();
        let sp_top_aligned = sp_top & !(STACK_ALIGN - 1);
        assert(sp_top_aligned == sp_top - sp_top % 16) by (bit_vector)
            requires
                sp_top_aligned == sp_top & !0xFusize,
        ;
        ThreadContext { regs: [entry, sp_top_aligned, 0, 0, 0, 0, 0, 0, 0, 0, 0, 0, 0, 0] }
    }
}

impl Default for ThreadContext {
    fn default() -> (cx: Self)
        ensures
            cx.is_zero(),
    {
        ThreadContext { regs: [0;CONTEXT_WORDS] }
    }
}

/// Thread control block: everything the scheduler keeps about one thread.
///
/// `J` is the type of the thread's job, a value that is handed out at most
/// once and then run by whoever took it.
pub struct TCB<J> {
    /// Index of the slot that holds this block; free slots are used again.
    pub id: usize,
    pub state: ThreadState,
    /// Where the thread resumes when it is next switched to.
    pub context: ThreadContext,
    /// The work of the thread, until it has been taken out.
    pub job: Option<J>,
    /// The thread whose end this one waits for, if it joined one.
    pub waiting_for: Option<usize>,
    /// The thread's private stack, owned for the whole life of the block.
    pub stack: Box<[usize; STACK_SIZE]>,
}

/// Address of the first word of a stack buffer: std's `as_ptr` on the array,
/// cast to an integer.
///
/// The address differs from one allocation to the next, so the contract
/// states only what std documents of every allocation: its end lies within
/// the address space.
#[verifier::external_body]
fn stack_base(stack: &[usize; STACK_SIZE]) -> (base: usize)
    ensures
        base + stack_bytes() <= usize::MAX,
{
    stack.as_ptr() as usize
}

impl<J> TCB<J> {
    /// What holds of a block that was just made for slot `id`: it has not
    /// started, waits for nobody, still has its job, and its stack is
    /// zeroed. Its context resumes at `entry` with the saved registers zero,
    /// and the stack pointer is the aligned end of a stack-sized stretch of
    /// the address space. (The stretch is the block's own stack; its address
    /// is not something a contract can name.)
    pub open spec fn is_fresh(&self, id: usize, job: Option<J>, entry: usize) -> bool {
        &&& self.id == id
        &&& self.state == ThreadState::Uninit
        &&& self.job == job
        &&& self.waiting_for is None
        &&& self.context.ra() == entry
        &&& self.context.sp() as int % (STACK_ALIGN as int) == 0
        &&& exists|base: usize|
            base + stack_bytes() <= usize::MAX && self.context.sp() == #[trigger] initial_sp(base)
        &&& self.context.callee_saved_zero()
        &&& forall|i: int| 0 <= i < STACK_SIZE ==> self.stack@[i] == 0
    }

    /// This block in another state.
    pub open spec fn with_state(self, state: ThreadState) -> Self {
        TCB { state, ..self }
    }

    /// Makes the block of a new thread for slot `id`. It allocates the
    /// thread's stack and prepares the context so that the first switch to
    /// the thread lands at `entry`, with the stack pointer at the aligned top
    /// of that stack. The job is stored, not run.
    pub fn new(id: usize, job: Option<J>, entry: usize) -> (tcb: Self)
        ensures
            tcb.is_fresh(id, job, entry),
    {
        let stack: Box<[usize; STACK_SIZE]> = Box::new([0;STACK_SIZE]);
        let base = stack_base(&*stack);
        let context = ThreadContext::initial(entry, base);
        TCB { id, state: ThreadState::Uninit, context, job, waiting_for: None, stack }
    }

    /// Runs the job if it is still there. Taking it out first is what makes
    /// a second call do nothing.
    pub fn run(&mut self) where J: FnOnce()
        requires
            old(self).job matches Some(job) ==> job.requires(()),
        ensures
            *final(self) == (TCB { job: None, ..*old(self) }),
            old(self).job matches Some(job) ==> job.ensures((), ()),
    {
        if let Some(job) = self.job.take() {
            job();
        }
    }
}

} // verus!
