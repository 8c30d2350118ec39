//! A minimalistic stack machine for executing domain specific interpreted
//! languages, in the spirit of Forth and Bitcoin Script.
//!
//! A script is an ordered sequence of items. Each item is either a value that
//! is pushed onto the stack, or an operator whose effect on the stack is
//! decided by an operator system that the caller supplies. A machine drives
//! the evaluation, and a codec turns scripts into a compact, self-delimiting
//! byte format and back.
//!
//! - [`stack`]: the stack, with its `main` and `alt` sub-stacks.
//! - [`condition_stack`]: the state of nested conditionals in constant space.
//! - [`value`]: the values and their arithmetic.
//! - [`item`]: items and scripts.
//! - [`machine`]: the driver that evaluates items and scripts.
//! - [`op_systems`]: ready-to-use operator systems.
//! - [`codecs`]: encoding and decoding of scripts.
//!
//! The main sub-stack keeps up to 64 values inline, and the alt sub-stack up
//! to 8, before they move to the heap.

pub mod codecs;
pub mod condition_stack;
pub mod item;
pub mod machine;
pub mod op_systems;
pub mod prelude;
pub mod stack;
pub mod value;
