//! Solvers that need no lookup table: plain double recursion, and the
//! iterative variant that keeps only the trailing pair of values.

use crate::bounds::lemma_fib_fits_u128;
use crate::fib;
use vstd::prelude::*;

verus! {

/// Simple recursion: walk backwards down the chain until the fixed answers
/// for 0 and 1, then unwind.  Exponential time, no working memory.
pub fn backtrace_fib(fib_num: u128) -> (r: u128)
    requires
        fib_num <= 186,
    ensures
        r == fib(fib_num as nat),
    decreases fib_num,
{
    if fib_num == 0 || fib_num == 1 {
        return fib_num;
    }
    let a = backtrace_fib(fib_num - 1);
    let b = backtrace_fib(fib_num - 2);
    proof {
        lemma_fib_fits_u128(fib_num as nat);
    }
    a + b
}

/// Iterative tabulation in constant space: build the chain upward from the
/// base cases, keeping only the last two values in a pair.
pub fn better_dynamic_fib(fib_num: u128) -> (r: u128)
    requires
        fib_num <= 186,
    ensures
        r == fib(fib_num as nat),
{
    if fib_num == 0 || fib_num == 1 {
        return fib_num;
    }
    let mut memo: (u128, u128) = (0, 1);
    let mut i: u128 = 2;
    while i <= fib_num
        invariant
            2 <= i <= fib_num + 1,
            fib_num <= 186,
            memo.0 == fib((i - 2) as nat),
            memo.1 == fib((i - 1) as nat),
        decreases fib_num + 1 - i,
    {
        proof {
            lemma_fib_fits_u128(i as nat);
        }
        memo = (memo.1, memo.0 + memo.1);
        i = i + 1;
    }
    memo.1
}

} // verus!
