//! The component `foo` of the variant: an addition, a greeter, and a random
//! draw between 1 and 100.

use crate::arith::wrapping_sum;
use rand::rngs::ThreadRng;
use vstd::prelude::*;

verus! {

/// The one line of text by which `foo` announces itself.
pub open spec fn foo_line() -> Seq<char> {
    "This is a function from foo"@
}

/// The smallest number that a draw can give.
pub const DRAW_MIN: i32 = 1;

/// The largest number that a draw can give.
pub const DRAW_MAX: i32 = 100;

/// `rand`'s handle to the random number generator of the current thread.
/// Nothing is known of what it holds.
#[verifier::external_type_specification]
#[verifier::external_body]
pub struct ExThreadRng(ThreadRng);

/// `rand::thread_rng`: gives a handle to the generator of the current
/// thread. Nothing is claimed of the handle. The generator is seeded from the
/// operating system on a thread's first call, and `rand` panics there if the
/// system has no entropy to give.
pub assume_specification[ rand::thread_rng ]() -> (rng: ThreadRng);

/// `rand::Rng::gen_range` on an inclusive range of `i32`: gives some number
/// of the range, both ends included. `rand` panics on an empty range, so the
/// range must hold at least one number. Which number comes is left open:
/// two calls on the same range may differ.
#[verifier::external_body]
fn gen_range_inclusive(rng: &mut ThreadRng, low: i32, high: i32) -> (drawn: i32)
    requires
        low <= high,
    ensures
        low <= drawn <= high,
{
    rand::Rng::gen_range(rng, low..=high)
}

/// Adds two unsigned 64-bit integers. A sum that does not fit wraps round:
/// the result is the true sum modulo 2^64.
pub fn add(left: u64, right: u64) -> (sum: u64)
    ensures
        sum == wrapping_sum(left, right),
        left + right <= u64::MAX ==> sum == left + right,
{
    left.wrapping_add(right)
}

/// The greeter of `foo`. It hands back the line that is to be written to
/// standard output; the writing itself is left to the caller.
pub fn foo_function() -> (line: String)
    ensures
        line@ == foo_line(),
{
    "This is a function from foo".to_owned()
}

/// Draws a number between 1 and 100, both included, from the random number
/// generator of the current thread. Every call draws anew, so nothing but
/// the range is promised of the result.
pub fn generate_random_number() -> (drawn: i32)
    ensures
        DRAW_MIN <= drawn <= DRAW_MAX,
{
    let mut rng = rand::thread_rng();
    gen_range_inclusive(&mut rng, DRAW_MIN, DRAW_MAX)
}

} // verus!
