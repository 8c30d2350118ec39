//! The most frequently used parts of this library.

pub use crate::condition_stack::ConditionStack;
pub use crate::item::Item;
pub use crate::item::Script;
pub use crate::item::ScriptRef;
pub use crate::machine::Machine;
pub use crate::stack::Stack;
pub use crate::value::Value;
