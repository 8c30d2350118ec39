//! Ready-to-use operator systems.

pub mod pokemon;
pub mod simple_math;
