//! Fibonacci numbers: a small computation for threads to take turns over.

use vstd::prelude::*;

verus! {

/// The Fibonacci numbers: 0, 1, and from there the sum of the two before.
pub open spec fn fib_of(n: nat) -> nat
    decreases n,
{
    if n <= 1 {
        n
    } else {
        fib_of((n - 1) as nat) + fib_of((n - 2) as nat)
    }
}

/// The `n`-th Fibonacci number, where it fits the result type.
pub fn fib(n: u32) -> (value: u32)
    requires
        fib_of(n as nat) <= u32::MAX,
    ensures
        value == fib_of(n as nat),
    decreases n,
{
    if n <= 1 {
        n
    } else {
        fib(n - 1) + fib(n - 2)
    }
}

} // verus!
