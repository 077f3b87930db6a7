//! The component `foo`: an addition and a greeter.

use crate::arith::wrapping_sum;
use vstd::prelude::*;

verus! {

/// The one line of text by which `foo` announces itself.
pub open spec fn foo_line() -> Seq<char> {
    "This is a function from foo"@
}

/// Adds two unsigned 64-bit integers. A sum that does not fit wraps round:
/// the result is the true sum modulo 2^64.
pub fn add(left: u64, right: u64) -> (sum: u64)
    ensures
        sum == wrapping_sum(left, right),
        left + right <= u64::MAX ==> sum == left + right,
{
    left.wrapping_add(right)
}

/// The greeter of `foo`. It hands back the line that is to be written to
/// standard output; the writing itself is left to the caller.
pub fn foo_function() -> (line: String)
    ensures
        line@ == foo_line(),
{
    "This is a function from foo".to_owned()
}

} // verus!
