use fib_solvers::cache::FibCache;
use fib_solvers::cli::{decide_invocation, Invocation};
use fib_solvers::memo::{backtrace_memo_fib, dynamic_fib};
use fib_solvers::solvers::{backtrace_fib, better_dynamic_fib};
use std::collections::HashMap;

#[test]
fn test_each_version() {
    assert_eq!(backtrace_fib(20), 6765);
    assert_eq!(backtrace_memo_fib(&mut HashMap::new(), 20), 6765);
    assert_eq!(dynamic_fib(20), 6765);
    assert_eq!(better_dynamic_fib(20), 6765);
    let mut cache = FibCache::new().unwrap();
    assert_eq!(cache.cached_fib(20), 6765);
}

#[test]
fn base_cases_for_every_variant() {
    let mut cache = FibCache::new().unwrap();
    for n in [0u128, 1u128] {
        assert_eq!(backtrace_fib(n), n);
        assert_eq!(backtrace_memo_fib(&mut HashMap::new(), n), n);
        assert_eq!(dynamic_fib(n), n);
        assert_eq!(better_dynamic_fib(n), n);
        assert_eq!(cache.cached_fib(n), n);
    }
}

#[test]
fn recurrence_holds_over_the_whole_range() {
    for n in 2u128..=186 {
        assert_eq!(
            better_dynamic_fib(n),
            better_dynamic_fib(n - 1) + better_dynamic_fib(n - 2)
        );
    }
}

#[test]
fn all_variants_agree_on_small_indices() {
    let mut cache = FibCache::new().unwrap();
    for n in 0u128..=25 {
        let naive = backtrace_fib(n);
        assert_eq!(backtrace_memo_fib(&mut HashMap::new(), n), naive);
        assert_eq!(dynamic_fib(n), naive);
        assert_eq!(better_dynamic_fib(n), naive);
        assert_eq!(cache.cached_fib(n), naive);
    }
}

#[test]
fn fast_variants_agree_up_to_the_bound() {
    let mut cache = FibCache::new().unwrap();
    for n in 0u128..=186 {
        let iterative = better_dynamic_fib(n);
        assert_eq!(backtrace_memo_fib(&mut HashMap::new(), n), iterative);
        assert_eq!(dynamic_fib(n), iterative);
        assert_eq!(cache.cached_fib(n), iterative);
    }
}

#[test]
fn checkpoints_for_every_variant() {
    let mut cache = FibCache::new().unwrap();
    for (n, expected) in [(10u128, 55u128), (30, 832040)] {
        assert_eq!(backtrace_fib(n), expected);
        assert_eq!(backtrace_memo_fib(&mut HashMap::new(), n), expected);
        assert_eq!(dynamic_fib(n), expected);
        assert_eq!(better_dynamic_fib(n), expected);
        assert_eq!(cache.cached_fib(n), expected);
    }
}

#[test]
fn largest_supported_index() {
    let expected: u128 = 332825110087067562321196029789634457848;
    assert_eq!(better_dynamic_fib(186), expected);
    assert_eq!(dynamic_fib(186), expected);
    assert_eq!(backtrace_memo_fib(&mut HashMap::new(), 186), expected);
    let mut cache = FibCache::new().unwrap();
    assert_eq!(cache.cached_fib(186), expected);
}

#[test]
fn memo_table_prepopulated_with_correct_entries() {
    let fresh = backtrace_memo_fib(&mut HashMap::new(), 40);

    let mut partial: HashMap<u128, u128> = HashMap::new();
    for k in 0u128..40 {
        partial.insert(k, better_dynamic_fib(k));
    }
    assert_eq!(backtrace_memo_fib(&mut partial, 40), fresh);

    let mut sparse: HashMap<u128, u128> = HashMap::new();
    sparse.insert(0, 0);
    sparse.insert(7, 13);
    sparse.insert(20, 6765);
    assert_eq!(backtrace_memo_fib(&mut sparse, 40), fresh);
}

#[test]
fn memo_table_keeps_existing_entries() {
    let mut memo: HashMap<u128, u128> = HashMap::new();
    backtrace_memo_fib(&mut memo, 15);
    assert_eq!(memo.get(&10), Some(&55));
    backtrace_memo_fib(&mut memo, 30);
    assert_eq!(memo.get(&10), Some(&55));
    assert_eq!(memo.get(&15), Some(&610));
}

#[test]
fn cached_solver_repeats_identically() {
    let mut cache = FibCache::new().unwrap();
    let first = cache.cached_fib(150);
    let second = cache.cached_fib(150);
    assert_eq!(first, second);
    assert_eq!(first, better_dynamic_fib(150));
    // Overlapping sub-indices are answered from the warm cache.
    assert_eq!(cache.cached_fib(149), better_dynamic_fib(149));
}

#[test]
fn invocation_with_wrong_argument_count_is_usage() {
    assert_eq!(decide_invocation(1, 0), Invocation::Usage);
    assert_eq!(decide_invocation(3, 20), Invocation::Usage);
    assert_eq!(decide_invocation(5, 20), Invocation::Usage);
}

#[test]
fn invocation_out_of_range_is_declined() {
    assert_eq!(decide_invocation(2, 0), Invocation::TooSmall);
    assert_eq!(decide_invocation(2, 1), Invocation::TooSmall);
    assert_eq!(decide_invocation(2, 187), Invocation::TooBig);
}

#[test]
fn invocation_in_range_runs() {
    assert_eq!(decide_invocation(2, 2), Invocation::Run);
    assert_eq!(decide_invocation(2, 20), Invocation::Run);
    assert_eq!(decide_invocation(2, 186), Invocation::Run);
}
