//! Fibonacci numbers computed four ways: plain recursion, recursion over a
//! caller-supplied memo table, iterative tabulation, and recursion backed by a
//! bounded least-recently-used cache that lives as long as its owner.
//!
//! Every solver is proved to return `fib(n)`, the mathematical Fibonacci
//! number, for indices up to 186 — the largest index whose value fits in a
//! `u128`.

use vstd::prelude::*;

pub mod bounds;
pub mod cache;
pub mod cli;
pub mod memo;
pub mod solvers;

verus! {

/// The Fibonacci sequence: fib(0) = 0, fib(1) = 1, and every later element is
/// the sum of the two before it.
pub open spec fn fib(n: nat) -> nat
    decreases n,
{
    if n == 0 {
        0
    } else if n == 1 {
        1
    } else {
        fib((n - 2) as nat) + fib((n - 1) as nat)
    }
}

/// The sequence starts from 0 and 1, for every solver that returns `fib`.
pub proof fn lemma_fib_base_cases()
    ensures
        fib(0) == 0,
        fib(1) == 1,
{
}

/// Every solver obeys the defining recurrence on the whole supported range:
/// a result for `n` is the sum of the results for `n - 1` and `n - 2`.
pub proof fn lemma_fib_recurrence(n: u128)
    requires
        2 <= n <= 186,
    ensures
        fib(n as nat) == fib((n - 1) as nat) + fib((n - 2) as nat),
{
}

/// The sequence never decreases.
pub proof fn lemma_fib_monotonic(i: nat, j: nat)
    requires
        i <= j,
    ensures
        fib(i) <= fib(j),
    decreases j,
{
    if i < j {
        if j >= 2 {
            lemma_fib_monotonic(i, (j - 1) as nat);
        }
    }
}

/// The four solver variants agree wherever their contracts hold: each one
/// returns `fib(n)`, so any two results for the same index are equal.
pub proof fn lemma_variants_agree(
    n: u128,
    r_naive: u128,
    r_memo: u128,
    r_iter: u128,
    r_cached: u128,
)
    requires
        n <= 186,
        r_naive == fib(n as nat),
        r_memo == fib(n as nat),
        r_iter == fib(n as nat),
        r_cached == fib(n as nat),
    ensures
        r_naive == r_memo,
        r_memo == r_iter,
        r_iter == r_cached,
{
}

/// Two calls of a solver on the same index return identical results: each
/// returns `fib(n)`, however warm the cache behind it has become.
pub proof fn lemma_repeated_calls_agree(n: u128, first: u128, second: u128)
    requires
        n <= 186,
        first == fib(n as nat),
        second == fib(n as nat),
    ensures
        first == second,
{
}

} // verus!
