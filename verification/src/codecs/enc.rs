//! What can be encoded, and what encodes.

use crate::item::ItemView;
use vstd::prelude::*;

verus! {

/// Something that bytes are written to, one after the other.
pub trait Encoder: Sized {
    /// The bytes written so far.
    spec fn written(&self) -> Seq<u8>;

    /// Writes a byte.
    fn write_u8(&mut self, input: u8)
        ensures
            final(self).written() == old(self).written().push(input),
    ;

    /// Writes bytes.
    fn write_bytes(&mut self, input: &[u8])
        ensures
            final(self).written() == old(self).written() + input@,
    ;
}

/// A kind of operator or value that can be encoded. An operator kind takes
/// its discriminants from `0x80` on, a value kind those below.
pub trait Encode: View {
    /// The encoding of what a thing of this kind stands for.
    spec fn wire(v: Self::V) -> Seq<u8>;

    /// Writes the encoding to `encoder`.
    fn encode<E: Encoder>(&self, encoder: &mut E)
        ensures
            final(encoder).written() == old(encoder).written() + Self::wire(self@),
    ;
}

/// An encoder that takes the elements of a sequence one by one.
pub trait EncodeSequence: Encoder {
    /// Writes the encoding of the next element.
    fn encode_element<T: Encode>(&mut self, value: &T)
        ensures
            final(self).written() == old(self).written() + T::wire(value@),
    ;

    /// Ends the sequence. The simple format frames no sequence, so nothing
    /// is written.
    fn end(&mut self)
        ensures
            final(self).written() == old(self).written(),
    ;
}

/// The encoding of an item: that of its operator or of its value.
pub open spec fn item_wire<Op: Encode, Val: Encode>(item: ItemView<Op::V, Val::V>) -> Seq<u8> {
    match item {
        ItemView::Operator(op) => Op::wire(op),
        ItemView::Value(value) => Val::wire(value),
    }
}

/// The encoding of a script: the encodings of its items, one after the
/// other. A script without items has the empty encoding.
pub open spec fn script_wire<Op: Encode, Val: Encode>(
    items: Seq<ItemView<Op::V, Val::V>>,
) -> Seq<u8>
    decreases items.len(),
{
    if items.len() == 0 {
        Seq::empty()
    } else {
        item_wire::<Op, Val>(items[0]) + script_wire::<Op, Val>(items.drop_first())
    }
}

/// The encoding of a script with one more item at its end is the encoding
/// of the script followed by that of the item.
pub proof fn lemma_script_wire_push<Op: Encode, Val: Encode>(
    items: Seq<ItemView<Op::V, Val::V>>,
    item: ItemView<Op::V, Val::V>,
)
    ensures
        script_wire::<Op, Val>(items.push(item)) == script_wire::<Op, Val>(items) + item_wire::<
            Op,
            Val,
        >(item),
    decreases items.len(),
{
    let longer = items.push(item);
    if items.len() == 0 {
        assert(longer.drop_first() =~= items);
    } else {
        lemma_script_wire_push::<Op, Val>(items.drop_first(), item);
        assert(longer.drop_first() =~= items.drop_first().push(item));
    }
}

} // verus!
