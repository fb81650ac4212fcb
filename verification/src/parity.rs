//! Parity of signed integers.

use vstd::prelude::*;

verus! {

/// Tells whether `num` is divisible by two.
///
/// Defined for every `i32`, negative values and both bounds included. The
/// remainder of a negative number by two is zero exactly when its Euclidean
/// remainder is, so the mathematical reading of `num % 2 == 0` is the one
/// that the machine computes.
pub fn is_even(num: i32) -> (even: bool)
    ensures
        even == (num % 2 == 0),
{
    num % 2 == 0
}

/// `is_even` is a function of its argument: two calls on the same number
/// return the same answer.
pub proof fn law_is_even_repeatable(num: i32, first: bool, second: bool)
    requires
        call_ensures(is_even, (num,), first),
        call_ensures(is_even, (num,), second),
    ensures
        first == second,
{
}

} // verus!
