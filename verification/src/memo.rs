//! Solvers backed by a transient lookup table: recursion over a
//! caller-supplied memo table, and iterative tabulation that keeps the whole
//! chain in a map.

use crate::bounds::lemma_fib_fits_u128;
use crate::fib;
use std::collections::HashMap;
use vstd::prelude::*;

verus! {

broadcast use vstd::std_specs::hash::group_hash_axioms;

/// A memo table is valid when every entry stores the Fibonacci number of its
/// key — once a key is present, its value never changes.
pub open spec fn memo_valid(m: Map<u128, u128>) -> bool {
    forall|k: u128| #[trigger] m.contains_key(k) ==> m[k] == fib(k as nat)
}

/// Recursion with memoization through a caller-owned table: a stored answer
/// is returned as is; a missing one is computed with the same table threaded
/// through the recursive calls, stored, and returned.  Any valid table — a
/// fresh one or one pre-populated with correct entries — yields `fib(n)`,
/// and entries already present survive the call unchanged.
pub fn backtrace_memo_fib(memo: &mut HashMap<u128, u128>, fib_num: u128) -> (r: u128)
    requires
        fib_num <= 186,
        memo_valid(old(memo)@),
    ensures
        r == fib(fib_num as nat),
        memo_valid(final(memo)@),
        final(memo)@.contains_key(fib_num),
        forall|k: u128|
            old(memo)@.contains_key(k) ==> #[trigger] final(memo)@.contains_key(k)
                && final(memo)@[k] == old(memo)@[k],
    decreases fib_num,
{
    match memo.get(&fib_num) {
        Some(answer) => *answer,
        None => {
            let result: u128;
            if fib_num == 0 || fib_num == 1 {
                result = fib_num;
            } else {
                let a = backtrace_memo_fib(memo, fib_num - 1);
                let b = backtrace_memo_fib(memo, fib_num - 2);
                proof {
                    lemma_fib_fits_u128(fib_num as nat);
                }
                result = a + b;
            }
            memo.insert(fib_num, result);
            result
        },
    }
}

/// Iterative tabulation over a map: seed the base cases, then fill indices
/// upward, each entry the sum of the two preceding ones, and return the entry
/// at the requested index.
pub fn dynamic_fib(fib_num: u128) -> (r: u128)
    requires
        fib_num <= 186,
    ensures
        r == fib(fib_num as nat),
{
    let mut memo: HashMap<u128, u128> = HashMap::new();
    memo.insert(0, 0);
    memo.insert(1, 1);
    if fib_num >= 2 {
        let mut i: u128 = 2;
        while i <= fib_num
            invariant
                2 <= i <= fib_num + 1,
                fib_num <= 186,
                forall|k: u128| k < i ==> #[trigger] memo@.contains_key(k),
                forall|k: u128| k < i ==> #[trigger] memo@[k] == fib(k as nat),
            decreases fib_num + 1 - i,
        {
            let a = *memo.get(&(i - 1)).unwrap();
            let b = *memo.get(&(i - 2)).unwrap();
            proof {
                lemma_fib_fits_u128(i as nat);
            }
            memo.insert(i, b + a);
            i = i + 1;
        }
    }
    *memo.get(&fib_num).unwrap()
}

} // verus!
