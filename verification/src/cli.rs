//! The decision the command line makes before any solver runs: exactly one
//! positional argument is accepted, and the index it names must lie in the
//! range whose Fibonacci numbers fit in a `u128` and are worth timing.

use vstd::prelude::*;

verus! {

/// What an invocation asks for, judged from the argument count and the
/// parsed index.
#[derive(Clone, Copy, Debug, PartialEq, Eq, Structural)]
pub enum Invocation {
    /// The argument count is wrong: print usage, compute nothing.
    Usage,
    /// The index is below 2: decline, compute nothing.
    TooSmall,
    /// The index is above 186, where the result overflows a `u128`: decline,
    /// compute nothing.
    TooBig,
    /// Run the timing report for the index.
    Run,
}

/// Judge an invocation: `arg_count` is the full argument count, the program
/// name included, and `fib_num` is the parsed positional argument, only
/// consulted when the count is right.
pub fn decide_invocation(arg_count: usize, fib_num: u128) -> (d: Invocation)
    ensures
        d == (if arg_count != 2 {
            Invocation::Usage
        } else if fib_num < 2 {
            Invocation::TooSmall
        } else if fib_num > 186 {
            Invocation::TooBig
        } else {
            Invocation::Run
        }),
        d == Invocation::Run ==> 2 <= fib_num <= 186,
{
    if arg_count != 2 {
        Invocation::Usage
    } else if fib_num < 2 {
        Invocation::TooSmall
    } else if fib_num > 186 {
        Invocation::TooBig
    } else {
        Invocation::Run
    }
}

} // verus!
