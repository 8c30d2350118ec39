//! The entities that make up a script.

use crate::value::Value;
use vstd::prelude::*;

verus! {

/// One entity of a script: either an operator, or a value to be pushed onto
/// the stack.
#[derive(Debug, PartialEq)]
pub enum Item<Op, Val = Value> {
    /// An operator code of the caller's own operator kind.
    Operator(Op),
    /// A value.
    Value(Val),
}

/// What an [`Item`] stands for: the same two cases, over what the operator
/// and the value stand for.
pub enum ItemView<Op, Val> {
    Operator(Op),
    Value(Val),
}

impl<Op: View, Val: View> View for Item<Op, Val> {
    type V = ItemView<Op::V, Val::V>;

    open spec fn view(&self) -> ItemView<Op::V, Val::V> {
        match self {
            Item::Operator(op) => ItemView::Operator(op@),
            Item::Value(value) => ItemView::Value(value@),
        }
    }
}

/// What the items of a script stand for, in their order.
pub open spec fn script_view<Op: View, Val: View>(items: Seq<Item<Op, Val>>) -> Seq<
    ItemView<Op::V, Val::V>,
> {
    Seq::new(items.len(), |i: int| items[i]@)
}

/// An ordered sequence of items of definite length.
pub type Script<Op, Val = Value> = Vec<Item<Op, Val>>;

/// A borrowed script.
pub type ScriptRef<'a, Op, Val = Value> = &'a [Item<Op, Val>];

} // verus!
