//! Branch and special-value policy of a complex-number kernel, decided on
//! IEEE-754 bit patterns and integers.

pub mod common;
pub mod math;
