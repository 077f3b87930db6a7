//! The two components of the plain demonstration: `foo`, and `bar`, which
//! builds on `foo`.

pub mod bar;
pub mod foo;
