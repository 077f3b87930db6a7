//! Small demonstration components: wrapping integer arithmetic, greeters that
//! hand out fixed lines of text, and a bounded random draw.
//!
//! Integer overflow never fails here: `add` and `add_one` wrap round, as the
//! two's-complement machine operation does, and their contracts say so.

pub mod arith;
pub mod demo;
pub mod zed_demo;
