//! The mathematical model of the arithmetic that the components offer, and
//! the laws that hold of it.

use vstd::prelude::*;

verus! {

/// The sum of two unsigned 64-bit integers, reduced modulo 2^64.
pub open spec fn wrapping_sum(left: u64, right: u64) -> int {
    (left + right) % 0x1_0000_0000_0000_0000
}

/// The successor of a signed 32-bit integer, where the successor of the
/// largest value is the smallest one.
pub open spec fn wrapping_successor(x: i32) -> int {
    if x == i32::MAX {
        i32::MIN as int
    } else {
        x + 1
    }
}

/// Addition is commutative: the order of the operands does not matter,
/// whether or not the sum wraps.
pub proof fn lemma_sum_commutative(a: u64, b: u64)
    ensures
        wrapping_sum(a, b) == wrapping_sum(b, a),
{
}

/// Zero is the identity element of addition, on either side.
pub proof fn lemma_sum_zero_identity(a: u64)
    ensures
        wrapping_sum(a, 0) == a,
        wrapping_sum(0, a) == a,
{
}

/// Below the largest value the wrapping successor is the true successor.
pub proof fn lemma_successor_exact_unless_overflow(x: i32)
    requires
        x < i32::MAX,
    ensures
        wrapping_successor(x) == x + 1,
{
}

} // verus!
