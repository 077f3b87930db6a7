//! The component `bar`: an addition, an increment, and a greeter that also
//! lets `foo` speak.

use crate::arith::{wrapping_successor, wrapping_sum};
use crate::demo::foo::{foo_function, foo_line};
use vstd::prelude::*;

verus! {

/// The one line of text by which `bar` announces itself.
pub open spec fn bar_line() -> Seq<char> {
    "This is a function from bar library"@
}

/// The greeter of `bar`. It hands back the lines that are to be written to
/// standard output, in the order in which they are to appear: first the line
/// of `bar`, then the line that the greeter of `foo` gives.
pub fn bar_function() -> (lines: Vec<String>)
    ensures
        lines@.len() == 2,
        lines@[0]@ == bar_line(),
        lines@[1]@ == foo_line(),
{
    let mut lines: Vec<String> = Vec::new();
    lines.push("This is a function from bar library".to_owned());
    lines.push(foo_function());
    lines
}

/// Adds two unsigned 64-bit integers. A sum that does not fit wraps round:
/// the result is the true sum modulo 2^64.
pub fn add(left: u64, right: u64) -> (sum: u64)
    ensures
        sum == wrapping_sum(left, right),
        left + right <= u64::MAX ==> sum == left + right,
{
    left.wrapping_add(right)
}

/// Adds one to a signed 32-bit integer. The successor of `i32::MAX` wraps
/// round to `i32::MIN`.
pub fn add_one(x: i32) -> (next: i32)
    ensures
        next == wrapping_successor(x),
        x < i32::MAX ==> next == x + 1,
{
    x.wrapping_add(1)
}

} // verus!
