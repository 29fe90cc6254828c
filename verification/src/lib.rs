//! Building blocks of a small cooperative kernel: the thread table and its
//! scheduling rules, the thread control block, and a singly linked list.
//!
//! Everything here is plain data and decisions. The machine-facing parts (the
//! register-level context switch, the console, power control) belong to the
//! program that embeds this library; it performs what the scheduler decides.

pub mod collection;
pub mod fib;
pub mod thread;
