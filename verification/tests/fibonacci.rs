use rust_basics::fibonacci::{
    fibonacci_iter, fibonacci_iterative, fibonacci_rec, fibonacci_recursive, MAX_EXACT_INDEX,
};

#[test]
fn iterative_base_cases() {
    assert_eq!(fibonacci_iterative(0), 0);
    assert_eq!(fibonacci_iterative(1), 1);
}

#[test]
fn iterative_known_values() {
    assert_eq!(fibonacci_iterative(2), 1);
    assert_eq!(fibonacci_iterative(5), 5);
    assert_eq!(fibonacci_iterative(10), 55);
    assert_eq!(fibonacci_iterative(20), 6765);
}

#[test]
fn recursive_base_cases() {
    assert_eq!(fibonacci_recursive(0), 0);
    assert_eq!(fibonacci_recursive(1), 1);
}

#[test]
fn recursive_known_values() {
    assert_eq!(fibonacci_recursive(2), 1);
    assert_eq!(fibonacci_recursive(5), 5);
    assert_eq!(fibonacci_recursive(10), 55);
    assert_eq!(fibonacci_recursive(20), 6765);
}

#[test]
fn recursive_and_iterative_agree() {
    for n in 0..=27u32 {
        assert_eq!(fibonacci_recursive(n), fibonacci_iterative(n), "index {}", n);
    }
}

#[test]
fn iterative_follows_the_recurrence_up_to_fifty() {
    let mut expected: Vec<u64> = vec![0, 1];
    for n in 2..=50usize {
        let next = expected[n - 1] + expected[n - 2];
        expected.push(next);
    }
    for n in 0..=50u32 {
        let reduced = (expected[n as usize] % (1u64 << 32)) as u32;
        assert_eq!(fibonacci_iterative(n), reduced, "index {}", n);
    }
}

#[test]
fn largest_exact_index() {
    assert_eq!(MAX_EXACT_INDEX, 47);
    assert_eq!(fibonacci_iterative(46), 1_836_311_903);
    assert_eq!(fibonacci_iterative(47), 2_971_215_073);
}

#[test]
fn wraps_past_the_exact_range() {
    // fib(48) = 4_807_526_976 and fib(50) = 12_586_269_025, reduced modulo 2^32.
    assert_eq!(fibonacci_iterative(48), 512_559_680);
    assert_eq!(fibonacci_iterative(49), 3_483_774_753);
    assert_eq!(fibonacci_iterative(50), 3_996_334_433);
}

#[test]
fn guard_clause_recursion_matches() {
    assert_eq!(fibonacci_rec(0), 0);
    assert_eq!(fibonacci_rec(1), 1);
    assert_eq!(fibonacci_rec(2), 1);
    assert_eq!(fibonacci_rec(5), 5);
    for n in 0..=20u32 {
        assert_eq!(fibonacci_rec(n), fibonacci_recursive(n));
    }
}

#[test]
fn temporary_swap_iteration_matches() {
    assert_eq!(fibonacci_iter(0), 0);
    assert_eq!(fibonacci_iter(1), 1);
    assert_eq!(fibonacci_iter(2), 1);
    assert_eq!(fibonacci_iter(3), 2);
    assert_eq!(fibonacci_iter(5), 5);
    for n in 0..=60u32 {
        assert_eq!(fibonacci_iter(n), fibonacci_iterative(n));
    }
}

#[test]
fn fibonacci_calls_are_repeatable() {
    assert_eq!(fibonacci_recursive(15), fibonacci_recursive(15));
    assert_eq!(fibonacci_iterative(15), fibonacci_iterative(15));
    assert_eq!(fibonacci_iterative(49), fibonacci_iterative(49));
}
