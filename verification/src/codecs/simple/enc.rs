//! Encoding in the simple format.

use crate::codecs::enc::item_wire;
use crate::codecs::enc::lemma_script_wire_push;
use crate::codecs::enc::script_wire;
use crate::codecs::enc::Encode;
use crate::codecs::enc::EncodeSequence;
use crate::codecs::enc::Encoder;
use crate::codecs::simple::format::le_bytes;
use crate::codecs::simple::format::twos_complement;
use crate::codecs::simple::format::value_wire;
use crate::codecs::simple::format::FLOAT;
use crate::codecs::simple::format::INTEGER;
use crate::codecs::simple::format::OPERATOR;
use crate::codecs::simple::format::STRING;
use crate::codecs::simple::significant_bytes_count;
use crate::codecs::simple::SimpleScriptCodec;
use crate::item::script_view;
use crate::item::Item;
use crate::item::ItemView;
use crate::item::Script;
use crate::op_systems::simple_math::MathOperator;
use crate::value::Value;
use crate::value::ValueView;
use vstd::prelude::*;

verus! {

/// The opcode of a mathematical operator.
pub open spec fn math_opcode(operator: MathOperator) -> u8 {
    match operator {
        MathOperator::Add => 0x00,
        MathOperator::Equal => 0x01,
        MathOperator::Mul => 0x02,
        MathOperator::Not => 0x03,
        MathOperator::Sub => 0x04,
    }
}

/// Appends the `count` least significant bytes of `value` to `out`, the
/// least significant first.
fn push_le_bytes(out: &mut Vec<u8>, value: u128, count: usize)
    ensures
        final(out)@ == old(out)@ + le_bytes(value as nat, count as nat),
{
    let mut rest: u128 = value;
    let mut written: usize = 0;
    while written < count
        invariant
            written <= count,
            out@ + le_bytes(rest as nat, (count - written) as nat) == old(out)@ + le_bytes(
                value as nat,
                count as nat,
            ),
        decreases count - written,
    {
        out.push((rest % 256) as u8);
        rest = rest / 256;
        written += 1;
    }
}

/// The two's complement of `v` in 128 bits.
fn to_twos_complement(v: i128) -> (r: u128)
    ensures
        r == twos_complement(v),
{
    if v >= 0 {
        v as u128
    } else {
        (v - i128::MIN) as u128 + 0x8000_0000_0000_0000_0000_0000_0000_0000u128
    }
}

impl Encoder for SimpleScriptCodec {
    open spec fn written(&self) -> Seq<u8> {
        self.bytes()
    }

    fn write_u8(&mut self, input: u8)
        ensures
            final(self).position() == old(self).position(),
    {
        self.data_push(input);
    }

    fn write_bytes(&mut self, input: &[u8])
        ensures
            final(self).position() == old(self).position(),
    {
        let mut i: usize = 0;
        while i < input.len()
            invariant
                i <= input@.len(),
                self.bytes() == old(self).bytes() + input@.take(i as int),
                self.position() == old(self).position(),
            decreases input@.len() - i,
        {
            self.write_u8(input[i]);
            i += 1;
        }
    }

}

impl EncodeSequence for SimpleScriptCodec {
    fn encode_element<T: Encode>(&mut self, value: &T) {
        value.encode(self);
    }

    fn end(&mut self) {
    }
}

impl SimpleScriptCodec {
    /// Appends the encoding of an item.
    pub fn encode_item<Op: Encode, Val: Encode>(&mut self, input: &Item<Op, Val>)
        ensures
            final(self).bytes() == old(self).bytes() + item_wire::<Op, Val>(input@),
    {
        input.encode(self);
    }

    /// Encodes a script: the encodings of its items in their order, and
    /// nothing else.
    pub fn to_vec<Op: Encode, Val: Encode>(input: &Script<Op, Val>) -> (r: Vec<u8>)
        ensures
            r@ == script_wire::<Op, Val>(script_view(input@)),
    {
        let mut codec = SimpleScriptCodec::new();
        codec.encode_element(input);
        codec.end();
        codec.data()
    }
}

impl<Op: Encode, Val: Encode> Encode for Item<Op, Val> {
    open spec fn wire(v: ItemView<Op::V, Val::V>) -> Seq<u8> {
        item_wire::<Op, Val>(v)
    }

    fn encode<E: Encoder>(&self, encoder: &mut E) {
        match self {
            Item::Operator(op) => op.encode(encoder),
            Item::Value(value) => value.encode(encoder),
        }
    }
}

impl<Op: Encode, Val: Encode> Encode for Vec<Item<Op, Val>> {
    open spec fn wire(v: Seq<Item<Op, Val>>) -> Seq<u8> {
        script_wire::<Op, Val>(script_view(v))
    }

    fn encode<E: Encoder>(&self, encoder: &mut E) {
        let ghost items = script_view(self@);
        let mut i: usize = 0;
        while i < self.len()
            invariant
                i <= self@.len(),
                items == script_view(self@),
                encoder.written() == old(encoder).written() + script_wire::<Op, Val>(
                    items.take(i as int),
                ),
            decreases self@.len() - i,
        {
            self[i].encode(encoder);
            proof {
                lemma_script_wire_push::<Op, Val>(items.take(i as int), items[i as int]);
                assert(items.take(i as int).push(items[i as int]) == items.take(i + 1));
            }
            i += 1;
        }
        assert(items.take(i as int) == items);
    }
}

impl Encode for MathOperator {
    open spec fn wire(v: MathOperator) -> Seq<u8> {
        seq![(OPERATOR + math_opcode(v)) as u8]
    }

    fn encode<E: Encoder>(&self, encoder: &mut E) {
        let discriminant: u8 = match self {
            MathOperator::Add => 0x00,
            MathOperator::Equal => 0x01,
            MathOperator::Mul => 0x02,
            MathOperator::Not => 0x03,
            MathOperator::Sub => 0x04,
        };
        encoder.write_u8(discriminant + OPERATOR);
    }
}

impl Encode for Value {
    open spec fn wire(v: ValueView) -> Seq<u8> {
        value_wire(v)
    }

    fn encode<E: Encoder>(&self, encoder: &mut E) {
        let mut bytes: Vec<u8> = Vec::new();
        match self {
            Value::Boolean(val) => {
                if *val {
                    bytes.push(0x01);
                } else {
                    bytes.push(0x00);
                }
            },
            Value::Float(val) => {
                bytes.push(FLOAT);
                push_le_bytes(&mut bytes, *val as u128, 8);
            },
            Value::Integer(val) => {
                let count = significant_bytes_count(*val);
                bytes.push(INTEGER + count as u8);
                push_le_bytes(&mut bytes, to_twos_complement(*val), count + 1);
            },
            Value::String(val) => {
                let str_bytes = val.as_str().as_bytes();
                if str_bytes.len() == 0 {
                    bytes.push(STRING);
                } else {
                    let length_length = 1 + significant_bytes_count(str_bytes.len() as i128);
                    bytes.push(STRING + length_length as u8);
                    push_le_bytes(&mut bytes, str_bytes.len() as u128, length_length);
                    bytes.extend_from_slice(str_bytes);
                }
            },
        }
        encoder.write_bytes(bytes.as_slice());
    }
}

} // verus!
