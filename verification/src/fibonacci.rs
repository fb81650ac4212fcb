//! The Fibonacci sequence on `u32`, by recursion and by iteration.
//!
//! The sequence outgrows a `u32` after index 47. Every function here is
//! total: it adds with wrap-around, so that past that index it returns the
//! Fibonacci number reduced modulo 2^32, and up to it the number itself.

use vstd::prelude::*;
use vstd::arithmetic::div_mod::lemma_add_mod_noop;

verus! {

/// The largest index whose Fibonacci number fits in a `u32`.
pub const MAX_EXACT_INDEX: u32 = 47;

/// The Fibonacci sequence over the naturals: 0, 1, 1, 2, 3, 5, 8, ...
pub open spec fn fib(n: nat) -> nat
    decreases n,
{
    if n == 0 {
        0
    } else if n == 1 {
        1
    } else {
        fib((n - 1) as nat) + fib((n - 2) as nat)
    }
}

/// What a `u32` holds of `fib(n)` when every addition wraps around.
pub open spec fn fib_u32(n: nat) -> int {
    fib(n) as int % 0x1_0000_0000
}

/// The sequence never decreases.
pub proof fn lemma_fib_monotonic(i: nat, j: nat)
    requires
        i <= j,
    ensures
        fib(i) <= fib(j),
    decreases j,
{
    if i < j {
        lemma_fib_monotonic(i, (j - 1) as nat);
    }
}

/// The last Fibonacci number below 2^32 and the first one above it.
pub proof fn lemma_fib_at_limit()
    ensures
        fib(47) == 2971215073,
        fib(48) == 4807526976,
{
    assert(fib(0) == 0);
    assert(fib(1) == 1);
    assert(fib(2) == 1);
    assert(fib(3) == 2);
    assert(fib(4) == 3);
    assert(fib(5) == 5);
    assert(fib(6) == 8);
    assert(fib(7) == 13);
    assert(fib(8) == 21);
    assert(fib(9) == 34);
    assert(fib(10) == 55);
    assert(fib(11) == 89);
    assert(fib(12) == 144);
    assert(fib(13) == 233);
    assert(fib(14) == 377);
    assert(fib(15) == 610);
    assert(fib(16) == 987);
    assert(fib(17) == 1597);
    assert(fib(18) == 2584);
    assert(fib(19) == 4181);
    assert(fib(20) == 6765);
    assert(fib(21) == 10946);
    assert(fib(22) == 17711);
    assert(fib(23) == 28657);
    assert(fib(24) == 46368);
    assert(fib(25) == 75025);
    assert(fib(26) == 121393);
    assert(fib(27) == 196418);
    assert(fib(28) == 317811);
    assert(fib(29) == 514229);
    assert(fib(30) == 832040);
    assert(fib(31) == 1346269);
    assert(fib(32) == 2178309);
    assert(fib(33) == 3524578);
    assert(fib(34) == 5702887);
    assert(fib(35) == 9227465);
    assert(fib(36) == 14930352);
    assert(fib(37) == 24157817);
    assert(fib(38) == 39088169);
    assert(fib(39) == 63245986);
    assert(fib(40) == 102334155);
    assert(fib(41) == 165580141);
    assert(fib(42) == 267914296);
    assert(fib(43) == 433494437);
    assert(fib(44) == 701408733);
    assert(fib(45) == 1134903170);
    assert(fib(46) == 1836311903);
    assert(fib(47) == 2971215073);
    assert(fib(48) == 4807526976);
}

/// Up to `MAX_EXACT_INDEX` wrap-around never happens.
pub proof fn lemma_fib_exact(n: nat)
    requires
        n <= MAX_EXACT_INDEX,
    ensures
        fib_u32(n) == fib(n),
{
    lemma_fib_at_limit();
    lemma_fib_monotonic(n, 47);
}

/// Past `MAX_EXACT_INDEX` every Fibonacci number is too large for a `u32`,
/// so the limit cannot be raised.
pub proof fn lemma_fib_exceeds_u32(n: nat)
    requires
        n > MAX_EXACT_INDEX,
    ensures
        fib(n) > u32::MAX,
        fib_u32(n) != fib(n),
{
    lemma_fib_at_limit();
    lemma_fib_monotonic(48, n);
}

/// Wrapping addition of two reduced terms gives the next reduced term.
proof fn lemma_fib_u32_step(n: nat, a: u32, b: u32)
    requires
        n >= 2,
        a == fib_u32((n - 1) as nat),
        b == fib_u32((n - 2) as nat),
    ensures
        a.wrapping_add(b) == fib_u32(n),
{
    lemma_add_mod_noop(fib((n - 1) as nat) as int, fib((n - 2) as nat) as int, 0x1_0000_0000);
}

/// Computes the Fibonacci number at index `num` by the defining recurrence.
///
/// Deliberately naive: exponential time, call depth linear in `num`, no
/// memoisation. It is the yardstick that `fibonacci_iterative` is held to.
pub fn fibonacci_recursive(num: u32) -> (value: u32)
    ensures
        value == fib_u32(num as nat),
        num <= MAX_EXACT_INDEX ==> value == fib(num as nat),
    decreases num,
{
    match num {
        0 => 0,
        1 => 1,
        _ => {
            let previous = fibonacci_recursive(num - 1);
            let before_previous = fibonacci_recursive(num - 2);
            proof {
                lemma_fib_u32_step(num as nat, previous, before_previous);
                if num <= MAX_EXACT_INDEX {
                    lemma_fib_exact(num as nat);
                }
            }
            previous.wrapping_add(before_previous)
        },
    }
}

/// Computes the Fibonacci number at index `num` in `num` steps with two
/// rolling accumulators.
pub fn fibonacci_iterative(num: u32) -> (value: u32)
    ensures
        value == fib_u32(num as nat),
        num <= MAX_EXACT_INDEX ==> value == fib(num as nat),
{
    if num == 0 {
        return 0;
    } else if num == 1 {
        return 1;
    }
    let mut first: u32 = 0;
    let mut second: u32 = 1;
    for k in 1..num
        invariant
            first == fib_u32((k - 1) as nat),
            second == fib_u32(k as nat),
    {
        proof {
            lemma_fib_u32_step((k + 1) as nat, second, first);
        }
        let next = first.wrapping_add(second);
        first = second;
        second = next;
    }
    proof {
        if num <= MAX_EXACT_INDEX {
            lemma_fib_exact(num as nat);
        }
    }
    second
}

/// The recurrence again, written with guard clauses in place of a `match`.
pub fn fibonacci_rec(num: u32) -> (value: u32)
    ensures
        value == fib_u32(num as nat),
        num <= MAX_EXACT_INDEX ==> value == fib(num as nat),
    decreases num,
{
    if num == 0 {
        return 0;
    }
    if num == 1 {
        return 1;
    }
    let previous = fibonacci_rec(num - 1);
    let before_previous = fibonacci_rec(num - 2);
    proof {
        lemma_fib_u32_step(num as nat, previous, before_previous);
        if num <= MAX_EXACT_INDEX {
            lemma_fib_exact(num as nat);
        }
    }
    return previous.wrapping_add(before_previous);
}

/// The iteration again, seeded before the guards and advanced through a
/// temporary: after `k` rounds `first` and `second` hold the terms at `k`
/// and `k + 1`.
pub fn fibonacci_iter(num: u32) -> (value: u32)
    ensures
        value == fib_u32(num as nat),
        num <= MAX_EXACT_INDEX ==> value == fib(num as nat),
{
    let mut first: u32 = 0;
    let mut second: u32 = 1;
    if num == 0 {
        return first;
    }
    if num == 1 {
        return second;
    }
    for k in 0..(num - 1)
        invariant
            first == fib_u32(k as nat),
            second == fib_u32((k + 1) as nat),
    {
        proof {
            lemma_fib_u32_step((k + 2) as nat, second, first);
        }
        let temp = second;
        second = first.wrapping_add(second);
        first = temp;
    }
    proof {
        if num <= MAX_EXACT_INDEX {
            lemma_fib_exact(num as nat);
        }
    }
    return second;
}

/// The recursive and the iterative computation return the same value at
/// every index, within the exact range and beyond it.
pub proof fn law_recursive_equals_iterative(num: u32, recursive: u32, iterative: u32)
    requires
        call_ensures(fibonacci_recursive, (num,), recursive),
        call_ensures(fibonacci_iterative, (num,), iterative),
    ensures
        recursive == iterative,
{
}

/// `fibonacci_recursive` is a function of its argument: two calls on the
/// same index return the same value.
pub proof fn law_fibonacci_recursive_repeatable(num: u32, first: u32, second: u32)
    requires
        call_ensures(fibonacci_recursive, (num,), first),
        call_ensures(fibonacci_recursive, (num,), second),
    ensures
        first == second,
{
}

/// `fibonacci_iterative` is a function of its argument: two calls on the
/// same index return the same value.
pub proof fn law_fibonacci_iterative_repeatable(num: u32, first: u32, second: u32)
    requires
        call_ensures(fibonacci_iterative, (num,), first),
        call_ensures(fibonacci_iterative, (num,), second),
    ensures
        first == second,
{
}

} // verus!
