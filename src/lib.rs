//! A fixed-capacity stack of `i32` values with batch push, pop, peek and a
//! top-to-bottom listing of its contents.

pub mod laws;
pub mod stack;
