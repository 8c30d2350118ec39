//! Decoding gives back what was encoded.
//!
//! This holds of every value but two kinds. The body of an integer is cut
//! to the bytes that its significant-byte count tells, and filled up with
//! zeros when it is read. So a negative integer comes back only where its
//! body holds all 16 bytes, and an integer that is not negative only where
//! the cut bytes are zero; they are not where dividing it by 256 again and
//! again meets exactly 256. The length of a string is cut in the same way.

use crate::codecs::dec::Decode;
use crate::codecs::enc::Encode;
use crate::codecs::simple::dec::parse_math_operator;
use crate::codecs::simple::dec::parse_script;
use crate::codecs::enc::item_wire;
use crate::codecs::enc::script_wire;
use crate::codecs::simple::format::float_wire;
use crate::codecs::simple::format::integer_survives;
use crate::codecs::simple::format::integer_wire;
use crate::codecs::simple::format::le_bytes;
use crate::codecs::simple::format::le_value;
use crate::codecs::simple::format::lemma_integer_count_bound;
use crate::codecs::simple::format::lemma_le_bytes_len;
use crate::codecs::simple::format::lemma_le_round_trip;
use crate::codecs::simple::format::lemma_pow256_grows;
use crate::codecs::simple::format::lemma_pow256_values;
use crate::codecs::simple::format::magnitude;
use crate::codecs::simple::format::parse_float;
use crate::codecs::simple::format::parse_integer;
use crate::codecs::simple::format::parse_string;
use crate::codecs::simple::format::parse_value;
use crate::codecs::simple::format::significant_bytes;
use crate::codecs::simple::format::string_survives;
use crate::codecs::simple::format::string_wire;
use crate::codecs::simple::format::twos_complement;
use crate::codecs::simple::format::value_survives;
use crate::codecs::simple::format::value_wire;
use crate::codecs::simple::format::DecodingErrorKind;
use crate::codecs::simple::format::OPERATOR;
use crate::item::ItemView;
use crate::op_systems::simple_math::MathOperator;
use crate::value::Value;
use crate::value::ValueView;
use vstd::prelude::*;
use vstd::utf8::encode_utf8;
use vstd::utf8::encode_utf8_decode_utf8;
use vstd::utf8::encode_utf8_valid_utf8;

verus! {

/// Whether `v` comes back from its encoding, whatever bytes follow it: the
/// encoding is not empty, and decoding gives `v` and takes the bytes of the
/// encoding.
pub open spec fn comes_back<T: Encode + Decode>(v: <T as View>::V) -> bool {
    &&& <T as Encode>::wire(v).len() >= 1
    &&& forall|rest: Seq<u8>|
        <T as Decode>::parse(#[trigger] (<T as Encode>::wire(v) + rest)) == Ok::<
            (<T as View>::V, nat),
            DecodingErrorKind,
        >((v, <T as Encode>::wire(v).len()))
}

/// Whether the item comes back from its encoding: its operator or value
/// does, and the first byte of the encoding lies on the side of its kind,
/// from `0x80` on for an operator and below for a value.
pub open spec fn item_comes_back<Op: Encode + Decode, Val: Encode + Decode>(
    item: ItemView<<Op as View>::V, <Val as View>::V>,
) -> bool {
    match item {
        ItemView::Operator(op) => comes_back::<Op>(op) && <Op as Encode>::wire(op)[0] >= OPERATOR,
        ItemView::Value(value) => comes_back::<Val>(value) && <Val as Encode>::wire(value)[0]
            < OPERATOR,
    }
}

/// A floating point number comes back from its encoding.
pub proof fn lemma_float_round_trip(bits: u64, rest: Seq<u8>)
    ensures
        parse_float(float_wire(bits) + rest) == Ok::<
            (u64, nat),
            DecodingErrorKind,
        >((bits, 9)),
        float_wire(bits).len() == 9,
{
    let body = le_bytes(bits as nat, 8);
    let all = float_wire(bits) + rest;
    lemma_le_bytes_len(bits as nat, 8);
    lemma_pow256_values();
    lemma_le_round_trip(bits as nat, 8);
    assert(all.subrange(1, 9) =~= body);
}

/// An integer that survives comes back from its encoding.
pub proof fn lemma_integer_round_trip(v: i128, rest: Seq<u8>)
    requires
        integer_survives(v),
    ensures
        parse_integer(integer_wire(v) + rest) == Ok::<
            (i128, nat),
            DecodingErrorKind,
        >((v, integer_wire(v).len())),
        integer_wire(v).len() == 2 + significant_bytes(magnitude(v)),
        0x03 <= integer_wire(v)[0] <= 0x12,
{
    let count = significant_bytes(magnitude(v));
    let body = le_bytes(twos_complement(v), count + 1);
    let all = integer_wire(v) + rest;
    lemma_integer_count_bound(v);
    lemma_le_bytes_len(twos_complement(v), count + 1);
    lemma_pow256_values();
    lemma_pow256_grows(count + 1, 16);
    if count == 15 {
        lemma_le_round_trip(twos_complement(v), 16);
    } else {
        lemma_pow256_grows(count + 1, 15);
        lemma_le_round_trip(twos_complement(v), count + 1);
    }
    assert(all.subrange(1, 1 + (count + 1) as int) =~= body);
}

/// A string that survives comes back from its encoding.
pub proof fn lemma_string_round_trip(chars: Seq<char>, rest: Seq<u8>)
    requires
        string_survives(chars),
    ensures
        parse_string(string_wire(chars) + rest) == Ok::<
            (Seq<char>, nat),
            DecodingErrorKind,
        >((chars, string_wire(chars).len())),
        string_wire(chars).len() >= 1,
        0x13 <= string_wire(chars)[0] <= 0x1b,
{
    let payload = encode_utf8(chars);
    let all = string_wire(chars) + rest;
    encode_utf8_valid_utf8(chars);
    encode_utf8_decode_utf8(chars);
    if payload.len() == 0 {
        reveal_with_fuel(le_value, 1);
    } else {
        let length_length = 1 + significant_bytes(payload.len());
        let length_bytes = le_bytes(payload.len(), length_length);
        lemma_le_bytes_len(payload.len(), length_length);
        lemma_le_round_trip(payload.len(), length_length);
        assert(all.subrange(1, 1 + length_length as int) =~= length_bytes);
        let start = 1 + length_length as int;
        assert(all.subrange(start, start + payload.len() as int) =~= payload);
    }
}

/// A value that survives comes back from its encoding, and its encoding
/// starts with a byte below `0x80`.
pub proof fn lemma_value_round_trip(v: ValueView, rest: Seq<u8>)
    requires
        value_survives(v),
    ensures
        parse_value(value_wire(v) + rest) == Ok::<
            (ValueView, nat),
            DecodingErrorKind,
        >((v, value_wire(v).len())),
        value_wire(v).len() >= 1,
        value_wire(v)[0] < OPERATOR,
{
    match v {
        ValueView::Boolean(_) => {},
        ValueView::Float(bits) => {
            lemma_float_round_trip(bits, rest);
        },
        ValueView::Integer(i) => {
            lemma_integer_round_trip(i, rest);
        },
        ValueView::String(chars) => {
            lemma_string_round_trip(chars, rest);
        },
    }
}

/// A mathematical operator comes back from its encoding, and its encoding
/// is one byte from `0x80` on.
pub proof fn lemma_math_operator_round_trip(operator: MathOperator, rest: Seq<u8>)
    ensures
        parse_math_operator(<MathOperator as Encode>::wire(operator) + rest) == Ok::<
            (MathOperator, nat),
            DecodingErrorKind,
        >((operator, 1)),
        <MathOperator as Encode>::wire(operator).len() == 1,
        <MathOperator as Encode>::wire(operator)[0] >= OPERATOR,
{
}

/// Decoding the encoding of a script gives the script back, for every
/// script of which each item comes back from its own encoding.
pub proof fn theorem_script_round_trip<Op: Encode + Decode, Val: Encode + Decode>(
    items: Seq<ItemView<<Op as View>::V, <Val as View>::V>>,
)
    requires
        forall|i: int| 0 <= i < items.len() ==> item_comes_back::<Op, Val>(#[trigger] items[i]),
    ensures
        parse_script::<Op, Val>(script_wire::<Op, Val>(items)) == Ok::<
            Seq<ItemView<<Op as View>::V, <Val as View>::V>>,
            DecodingErrorKind,
        >(items),
    decreases items.len(),
{
    if items.len() > 0 {
        let first = items[0];
        let later = items.drop_first();
        let head = item_wire::<Op, Val>(first);
        let tail = script_wire::<Op, Val>(later);
        let all = script_wire::<Op, Val>(items);
        assert forall|i: int| 0 <= i < later.len() implies item_comes_back::<Op, Val>(
            #[trigger] later[i],
        ) by {
        }
        theorem_script_round_trip::<Op, Val>(later);
        assert(all.skip(head.len() as int) =~= tail);
        assert(seq![first] + later =~= items);
    } else {
        assert(items =~= Seq::empty());
    }
}

/// Whether every value of the script survives encoding.
pub open spec fn script_survives(items: Seq<ItemView<MathOperator, ValueView>>) -> bool {
    forall|i: int|
        0 <= i < items.len() && (#[trigger] items[i]) is Value ==> value_survives(
            items[i]->Value_0,
        )
}

/// Decoding the encoding of a script of mathematical operators and values
/// gives the script back, for every script of which each value survives.
pub proof fn theorem_codec_round_trip(items: Seq<ItemView<MathOperator, ValueView>>)
    requires
        script_survives(items),
    ensures
        parse_script::<MathOperator, Value>(script_wire::<MathOperator, Value>(items)) == Ok::<
            Seq<ItemView<MathOperator, ValueView>>,
            DecodingErrorKind,
        >(items),
{
    assert forall|i: int| 0 <= i < items.len() implies item_comes_back::<MathOperator, Value>(
        #[trigger] items[i],
    ) by {
        match items[i] {
            ItemView::Operator(op) => {
                assert forall|rest: Seq<u8>|
                    <MathOperator as Decode>::parse(
                        #[trigger] (<MathOperator as Encode>::wire(op) + rest),
                    ) == Ok::<(MathOperator, nat), DecodingErrorKind>(
                        (op, <MathOperator as Encode>::wire(op).len()),
                    ) by {
                    lemma_math_operator_round_trip(op, rest);
                }
                lemma_math_operator_round_trip(op, Seq::empty());
            },
            ItemView::Value(value) => {
                assert forall|rest: Seq<u8>|
                    <Value as Decode>::parse(#[trigger] (<Value as Encode>::wire(value) + rest))
                        == Ok::<(ValueView, nat), DecodingErrorKind>(
                        (value, <Value as Encode>::wire(value).len()),
                    ) by {
                    lemma_value_round_trip(value, rest);
                }
                lemma_value_round_trip(value, Seq::empty());
            },
        }
    }
    theorem_script_round_trip::<MathOperator, Value>(items);
}

/// Encoding what was decoded gives the bytes back, for the bytes that are
/// the encoding of a script of which each value survives: each such script
/// has one encoding.
pub proof fn theorem_bytes_round_trip(
    bytes: Seq<u8>,
    items: Seq<ItemView<MathOperator, ValueView>>,
)
    requires
        script_survives(items),
        bytes == script_wire::<MathOperator, Value>(items),
    ensures
        parse_script::<MathOperator, Value>(bytes) is Ok,
        script_wire::<MathOperator, Value>(parse_script::<MathOperator, Value>(bytes)->Ok_0)
            == bytes,
{
    theorem_codec_round_trip(items);
}

} // verus!
