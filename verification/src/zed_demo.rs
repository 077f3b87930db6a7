//! The variant of the demonstration whose `foo` also draws random numbers.

pub mod foo;
