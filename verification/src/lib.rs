use vstd::prelude::*;

verus! {

/// The sum of `a` and `b` brought back into the range of a 32-bit signed
/// integer by two's-complement wraparound: a sum past `i32::MAX` comes
/// around from `i32::MIN`, and one below `i32::MIN` from `i32::MAX`.
pub open spec fn wrapped_sum(a: int, b: int) -> int {
    if a + b > i32::MAX {
        a + b - 0x1_0000_0000
    } else if a + b < i32::MIN {
        a + b + 0x1_0000_0000
    } else {
        a + b
    }
}

/// Adds two 32-bit signed integers. Overflow is not an error: the result
/// wraps with two's-complement semantics, so every input pair succeeds.
pub fn sum_two(a: i32, b: i32) -> (r: i32)
    ensures
        r as int == wrapped_sum(a as int, b as int),
{
    a.wrapping_add(b)
}

/// The wrapped sum is commutative: adding `a` to `b` and `b` to `a` give
/// the same 32-bit result.
pub proof fn lemma_sum_two_commutes(a: i32, b: i32)
    ensures
        wrapped_sum(a as int, b as int) == wrapped_sum(b as int, a as int),
{
}

/// Zero is an identity for the wrapped sum: adding `0` to any 32-bit
/// signed integer returns it unchanged.
pub proof fn lemma_sum_two_identity(a: i32)
    ensures
        wrapped_sum(a as int, 0) == a as int,
{
}

} // verus!
