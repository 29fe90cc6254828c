use coop_kernel::thread::tcb::{ThreadContext, ThreadState, CONTEXT_WORDS, STACK_ALIGN, TCB};
use coop_kernel::thread::STACK_SIZE;
use std::cell::Cell;
use std::rc::Rc;

#[test]
fn stack_has_the_documented_size() {
    assert_eq!(STACK_SIZE, 1024);
}

#[test]
fn default_context_is_all_zero() {
    let cx = ThreadContext::default();
    assert_eq!(cx.ra(), 0);
    assert_eq!(cx.sp(), 0);
    assert_eq!(cx.regs, [0usize; 14]);
}

#[test]
fn context_is_fourteen_words_in_the_order_of_the_registers() {
    assert_eq!(CONTEXT_WORDS, 14);
    let mut regs = [0usize; 14];
    for (i, word) in regs.iter_mut().enumerate() {
        *word = 100 + i;
    }
    let cx = ThreadContext { regs };
    assert_eq!(cx.ra(), 100);
    assert_eq!(cx.sp(), 101);
    for i in 0..12 {
        assert_eq!(cx.s(i), 102 + i);
    }
    assert_eq!(
        std::mem::size_of::<ThreadContext>(),
        14 * std::mem::size_of::<usize>()
    );
}

#[test]
fn initial_context_points_at_the_aligned_top_of_the_stack() {
    let bytes = STACK_SIZE * std::mem::size_of::<usize>();
    let cx = ThreadContext::initial(0x8020_0000, 0x8100_0000);
    assert_eq!(cx.ra(), 0x8020_0000);
    assert_eq!(cx.sp(), 0x8100_0000 + bytes);
    assert_eq!(cx.regs[2..], [0usize; 12]);
}

#[test]
fn initial_context_aligns_the_stack_pointer_downwards() {
    let bytes = STACK_SIZE * std::mem::size_of::<usize>();
    // A base that is 8 past a multiple of 16: the top is cut back by 8.
    let cx = ThreadContext::initial(1, 0x1008);
    assert_eq!(cx.sp(), 0x1000 + bytes);
    let cx = ThreadContext::initial(1, 0x100f);
    assert_eq!(cx.sp(), 0x1000 + bytes);
    let cx = ThreadContext::initial(1, 0x1010);
    assert_eq!(cx.sp(), 0x1010 + bytes);
    let cx = ThreadContext::initial(1, 0);
    assert_eq!(cx.sp(), bytes);
}

#[test]
fn initial_context_accepts_a_stack_at_the_end_of_the_address_space() {
    let bytes = STACK_SIZE * std::mem::size_of::<usize>();
    let cx = ThreadContext::initial(1, usize::MAX - bytes);
    assert_eq!(cx.sp(), usize::MAX - 15);
}

#[test]
fn new_block_is_uninit_and_resumes_at_the_entry() {
    let tcb = TCB::new(3, Some(7u32), 0x8020_1000);
    assert_eq!(tcb.id, 3);
    assert_eq!(tcb.state, ThreadState::Uninit);
    assert_eq!(tcb.job, Some(7));
    assert_eq!(tcb.waiting_for, None);
    assert_eq!(tcb.context.ra(), 0x8020_1000);
    assert_eq!(tcb.context.regs[2..], [0usize; 12]);
    assert!(tcb.stack.iter().all(|&word| word == 0));
    assert_eq!(tcb.stack.len(), STACK_SIZE);
}

#[test]
fn new_block_has_its_stack_pointer_at_the_top_of_its_own_stack() {
    let tcb = TCB::new(0, Some(0u32), 1);
    let words: &[usize] = &tcb.stack[..];
    let range = words.as_ptr_range();
    let (low, high) = (range.start as usize, range.end as usize);
    assert_eq!(high - low, STACK_SIZE * std::mem::size_of::<usize>());
    assert_eq!(STACK_ALIGN, 16);
    assert_eq!(tcb.context.sp() % STACK_ALIGN, 0);
    assert_eq!(tcb.context.sp(), high & !0xF);
    assert!(low < tcb.context.sp() && tcb.context.sp() <= high);
}

#[test]
fn new_block_keeps_its_stack_pointer_when_it_moves() {
    let tcb = TCB::new(0, Some(0u32), 1);
    let sp = tcb.context.sp();
    let moved = vec![Some(tcb)];
    let tcb = moved[0].as_ref().unwrap();
    assert_eq!(tcb.context.sp(), sp);
    assert_eq!(tcb.context.sp(), (tcb.stack[..].as_ptr_range().end as usize) & !0xF);
}

#[test]
fn two_blocks_have_stacks_of_their_own() {
    let a = TCB::new(0, Some(0u32), 1);
    let b = TCB::new(1, Some(0u32), 1);
    assert_ne!(a.context.sp(), b.context.sp());
}

#[test]
fn new_block_may_have_no_job() {
    let tcb: TCB<u32> = TCB::new(0, None, 1);
    assert_eq!(tcb.job, None);
    assert_eq!(tcb.state, ThreadState::Uninit);
}

#[test]
fn run_invokes_the_job_once_and_consumes_it() {
    let calls = Rc::new(Cell::new(0));
    let seen = Rc::clone(&calls);
    let mut tcb = TCB::new(0, Some(move || seen.set(seen.get() + 1)), 1);
    assert!(tcb.job.is_some());
    tcb.run();
    assert_eq!(calls.get(), 1);
    assert!(tcb.job.is_none());
    tcb.run();
    assert_eq!(calls.get(), 1);
}

#[test]
fn run_without_a_job_does_nothing() {
    let mut tcb: TCB<fn()> = TCB::new(5, None, 1);
    tcb.run();
    assert!(tcb.job.is_none());
    assert_eq!(tcb.id, 5);
    assert_eq!(tcb.state, ThreadState::Uninit);
}

#[test]
fn run_changes_nothing_but_the_job() {
    let mut tcb = TCB::new(2, Some(|| ()), 0x77);
    let sp = tcb.context.sp();
    tcb.state = ThreadState::Running;
    tcb.waiting_for = Some(4);
    tcb.run();
    assert_eq!(tcb.id, 2);
    assert_eq!(tcb.state, ThreadState::Running);
    assert_eq!(tcb.waiting_for, Some(4));
    assert_eq!((tcb.context.ra(), tcb.context.sp()), (0x77, sp));
}

#[test]
fn run_takes_a_boxed_job() {
    let calls = Rc::new(Cell::new(0));
    let seen = Rc::clone(&calls);
    let job: Box<dyn FnOnce()> = Box::new(move || seen.set(seen.get() + 10));
    let mut tcb = TCB::new(0, Some(job), 1);
    tcb.run();
    assert_eq!(calls.get(), 10);
}
