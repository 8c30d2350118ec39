//! The wire format, as mathematics.
//!
//! Each item starts with a discriminant, a byte that tells its kind and, for
//! a kind of variable size, a length:
//!
//! | Discriminant   | Meaning                                                  |
//! |----------------|----------------------------------------------------------|
//! | `0x00`         | The boolean `false`.                                     |
//! | `0x01`         | The boolean `true`.                                      |
//! | `0x02`         | A floating point number: 8 bytes follow.                 |
//! | `0x03..=0x12`  | An integer: `discriminant - 0x02` bytes follow.          |
//! | `0x13`         | The empty string.                                        |
//! | `0x14..=0x79`  | A string: `discriminant - 0x13` bytes of length follow,  |
//! |                | then as many bytes of UTF-8 as the length says.          |
//! | `0x80..=0xFF`  | An operator: `discriminant - 0x80` is its opcode.        |
//!
//! Numbers are written with the least significant byte first.

use crate::value::ValueView;
use vstd::arithmetic::div_mod::lemma_mod_breakdown;
use vstd::arithmetic::div_mod::lemma_small_mod;
use vstd::prelude::*;
use vstd::utf8::decode_utf8;
use vstd::utf8::encode_utf8;
use vstd::utf8::valid_utf8;

verus! {

/// The discriminant of a floating point number.
pub const FLOAT: u8 = 0x02;

/// The discriminant of an integer with a body of one byte; each further
/// byte of body adds one.
pub const INTEGER: u8 = 0x03;

/// The discriminant of the empty string; each byte of length adds one.
pub const STRING: u8 = 0x13;

/// The last discriminant of a string.
pub const STRING_LAST: u8 = 0x79;

/// The discriminant of the operator with opcode 0; each opcode adds itself.
pub const OPERATOR: u8 = 0x80;

/// Why a sequence of bytes cannot be decoded.
#[derive(Debug, PartialEq, Eq, Clone, Copy)]
pub enum DecodingErrorKind {
    /// More bytes are needed than there are.
    Eof,
    /// The discriminant of a value lies outside the ranges of the format.
    UnknownDiscriminant,
    /// The opcode of an operator is none of the operator kind.
    UnknownOpcode,
    /// The body of a string is not valid UTF-8.
    InvalidUtf8,
    /// A failure that is described by its message alone.
    Other,
}

/// `256` to the power of `k`.
pub open spec fn pow256(k: nat) -> nat
    decreases k,
{
    if k == 0 {
        1
    } else {
        256 * pow256((k - 1) as nat)
    }
}

/// The `count` least significant bytes of `n`, the least significant first.
pub open spec fn le_bytes(n: nat, count: nat) -> Seq<u8>
    decreases count,
{
    if count == 0 {
        Seq::empty()
    } else {
        seq![(n % 256) as u8] + le_bytes(n / 256, (count - 1) as nat)
    }
}

/// The number that `bytes` stand for, the least significant byte first.
pub open spec fn le_value(bytes: Seq<u8>) -> nat
    decreases bytes.len(),
{
    if bytes.len() == 0 {
        0
    } else {
        bytes[0] as nat + 256 * le_value(bytes.drop_first())
    }
}

/// The absolute value of `v`, or the largest integer for the smallest one,
/// whose absolute value is no integer of the type.
pub open spec fn magnitude(v: i128) -> nat {
    if v == i128::MIN {
        i128::MAX as nat
    } else if v < 0 {
        (-v) as nat
    } else {
        v as nat
    }
}

/// The significant-byte count of a magnitude: how often it has to be divided
/// by 256 until it is at most 256.
pub open spec fn significant_bytes(magnitude: nat) -> nat
    decreases magnitude,
{
    if magnitude <= 256 {
        0
    } else {
        1 + significant_bytes(magnitude / 256)
    }
}

/// The integer `v` in two's complement of 128 bits, as a natural number.
pub open spec fn twos_complement(v: i128) -> nat {
    if v >= 0 {
        v as nat
    } else {
        (v + 0x1_0000_0000_0000_0000_0000_0000_0000_0000) as nat
    }
}

/// The integer that the natural number `n` below `2^128` stands for in
/// two's complement of 128 bits.
pub open spec fn from_twos_complement(n: nat) -> i128 {
    if n < 0x8000_0000_0000_0000_0000_0000_0000_0000 {
        n as i128
    } else {
        (n - 0x1_0000_0000_0000_0000_0000_0000_0000_0000) as i128
    }
}

/// The encoding of a boolean: its discriminant.
pub open spec fn boolean_wire(b: bool) -> Seq<u8> {
    if b {
        seq![1u8]
    } else {
        seq![0u8]
    }
}

/// The encoding of a floating point number with bit pattern `bits`: the
/// discriminant and the 8 bytes of the pattern.
pub open spec fn float_wire(bits: u64) -> Seq<u8> {
    seq![FLOAT] + le_bytes(bits as nat, 8)
}

/// The encoding of an integer: the discriminant, which holds the
/// significant-byte count, and one byte more of its two's complement than
/// the count says.
pub open spec fn integer_wire(v: i128) -> Seq<u8> {
    let count = significant_bytes(magnitude(v));
    seq![(INTEGER + count) as u8] + le_bytes(twos_complement(v), count + 1)
}

/// The encoding of a string: for the empty string its discriminant; else the
/// discriminant, which holds the number of bytes of length, the length of
/// the string's UTF-8 form, and that form.
pub open spec fn string_wire(chars: Seq<char>) -> Seq<u8> {
    let payload = encode_utf8(chars);
    if payload.len() == 0 {
        seq![STRING]
    } else {
        let length_length = 1 + significant_bytes(payload.len());
        seq![(STRING + length_length) as u8] + le_bytes(payload.len(), length_length) + payload
    }
}

/// The encoding of a value.
pub open spec fn value_wire(v: ValueView) -> Seq<u8> {
    match v {
        ValueView::Boolean(b) => boolean_wire(b),
        ValueView::Float(bits) => float_wire(bits),
        ValueView::Integer(i) => integer_wire(i),
        ValueView::String(chars) => string_wire(chars),
    }
}

/// What decoding gives: the thing decoded and the number of bytes that it
/// took, or why there is none.
pub type Parsed<T> = Result<(T, nat), DecodingErrorKind>;

/// Decodes a floating point number at the start of `bytes`: the bit pattern
/// that the 8 bytes after the discriminant hold.
pub open spec fn parse_float(bytes: Seq<u8>) -> Parsed<u64> {
    if bytes.len() == 0 {
        Err(DecodingErrorKind::Eof)
    } else if bytes[0] != FLOAT {
        Err(DecodingErrorKind::UnknownDiscriminant)
    } else if bytes.len() < 9 {
        Err(DecodingErrorKind::Eof)
    } else {
        Ok((le_value(bytes.subrange(1, 9)) as u64, 9))
    }
}

/// Decodes an integer at the start of `bytes`: the bytes after the
/// discriminant, as many as it says, filled up with zeros to 16 bytes and
/// read as two's complement. A body of fewer than 16 bytes thus stands for
/// an integer that is not negative.
pub open spec fn parse_integer(bytes: Seq<u8>) -> Parsed<i128> {
    if bytes.len() == 0 {
        Err(DecodingErrorKind::Eof)
    } else if !(INTEGER <= bytes[0] <= 0x12) {
        Err(DecodingErrorKind::UnknownDiscriminant)
    } else {
        let length = (bytes[0] - 0x02) as nat;
        if bytes.len() < 1 + length {
            Err(DecodingErrorKind::Eof)
        } else {
            Ok((from_twos_complement(le_value(bytes.subrange(1, 1 + length as int))), 1 + length))
        }
    }
}

/// Decodes a string at the start of `bytes`: for the discriminant of the
/// empty string the empty string; else the characters that the body holds
/// in UTF-8, where the bytes after the discriminant, as many as it says,
/// give the length of the body.
pub open spec fn parse_string(bytes: Seq<u8>) -> Parsed<Seq<char>> {
    if bytes.len() == 0 {
        Err(DecodingErrorKind::Eof)
    } else if !(STRING <= bytes[0] <= STRING_LAST) {
        Err(DecodingErrorKind::UnknownDiscriminant)
    } else {
        let length_length = (bytes[0] - STRING) as nat;
        if bytes.len() < 1 + length_length {
            Err(DecodingErrorKind::Eof)
        } else {
            let length = le_value(bytes.subrange(1, 1 + length_length as int));
            let start = 1 + length_length;
            if bytes.len() < start + length {
                Err(DecodingErrorKind::Eof)
            } else {
                let payload = bytes.subrange(start as int, start as int + length as int);
                if !valid_utf8(payload) {
                    Err(DecodingErrorKind::InvalidUtf8)
                } else {
                    Ok((decode_utf8(payload), start + length))
                }
            }
        }
    }
}

/// Decodes a value at the start of `bytes`, by its discriminant.
pub open spec fn parse_value(bytes: Seq<u8>) -> Parsed<ValueView> {
    if bytes.len() == 0 {
        Err(DecodingErrorKind::Eof)
    } else if bytes[0] == 0x00 {
        Ok((ValueView::Boolean(false), 1))
    } else if bytes[0] == 0x01 {
        Ok((ValueView::Boolean(true), 1))
    } else if bytes[0] == FLOAT {
        match parse_float(bytes) {
            Ok((bits, taken)) => Ok((ValueView::Float(bits), taken)),
            Err(kind) => Err(kind),
        }
    } else if bytes[0] <= 0x12 {
        match parse_integer(bytes) {
            Ok((i, taken)) => Ok((ValueView::Integer(i), taken)),
            Err(kind) => Err(kind),
        }
    } else if bytes[0] <= STRING_LAST {
        match parse_string(bytes) {
            Ok((chars, taken)) => Ok((ValueView::String(chars), taken)),
            Err(kind) => Err(kind),
        }
    } else {
        Err(DecodingErrorKind::UnknownDiscriminant)
    }
}

/// Whether the integer `v` comes back from its encoding: its body holds all
/// 16 bytes, or `v` is not negative and fits into the bytes of its body.
pub open spec fn integer_survives(v: i128) -> bool {
    let count = significant_bytes(magnitude(v));
    count == 15 || 0 <= v < pow256(count + 1)
}

/// Whether the string `chars` comes back from its encoding: it is empty, or
/// the length of its UTF-8 form fits into the bytes of length, of which
/// there are at most 8.
pub open spec fn string_survives(chars: Seq<char>) -> bool {
    let length = encode_utf8(chars).len();
    let length_length = 1 + significant_bytes(length);
    length == 0 || (length_length <= 8 && length < pow256(length_length))
}

/// Whether the value `v` comes back from its encoding.
pub open spec fn value_survives(v: ValueView) -> bool {
    match v {
        ValueView::Integer(i) => integer_survives(i),
        ValueView::String(chars) => string_survives(chars),
        _ => true,
    }
}

/// The powers of 256 that the format meets.
pub proof fn lemma_pow256_values()
    ensures
        pow256(0) == 1,
        pow256(1) == 0x100,
        pow256(2) == 0x1_0000,
        pow256(4) == 0x1_0000_0000,
        pow256(8) == 0x1_0000_0000_0000_0000,
        pow256(9) == 0x100_0000_0000_0000_0000,
        pow256(15) == 0x100_0000_0000_0000_0000_0000_0000_0000,
        pow256(16) == 0x1_0000_0000_0000_0000_0000_0000_0000_0000,
{
    reveal_with_fuel(pow256, 17);
}

/// The powers of 256 are positive and grow with the exponent.
pub proof fn lemma_pow256_grows(j: nat, k: nat)
    requires
        j <= k,
    ensures
        0 < pow256(j) <= pow256(k),
    decreases k,
{
    if k > 0 {
        if j < k {
            lemma_pow256_grows(j, (k - 1) as nat);
        } else {
            lemma_pow256_grows((j - 1) as nat, (k - 1) as nat);
        }
    }
}

/// `le_bytes(n, count)` has `count` bytes.
pub proof fn lemma_le_bytes_len(n: nat, count: nat)
    ensures
        le_bytes(n, count).len() == count,
    decreases count,
{
    if count > 0 {
        lemma_le_bytes_len(n / 256, (count - 1) as nat);
    }
}

/// The number that bytes stand for is below 256 to the power of their count.
pub proof fn lemma_le_value_bound(bytes: Seq<u8>)
    ensures
        le_value(bytes) < pow256(bytes.len()),
    decreases bytes.len(),
{
    if bytes.len() > 0 {
        lemma_le_value_bound(bytes.drop_first());
    }
}

/// Reading the `count` least significant bytes of `n` gives `n` modulo 256
/// to the power of `count`.
pub proof fn lemma_le_value_of_bytes(n: nat, count: nat)
    ensures
        le_value(le_bytes(n, count)) == n % pow256(count),
    decreases count,
{
    if count > 0 {
        let rest = le_bytes(n / 256, (count - 1) as nat);
        let all = le_bytes(n, count);
        lemma_le_value_of_bytes(n / 256, (count - 1) as nat);
        assert(all.drop_first() == rest);
        lemma_pow256_grows(0, (count - 1) as nat);
        lemma_mod_breakdown(n as int, 256, pow256((count - 1) as nat) as int);
    }
}

/// A number below 256 to the power of `count` comes back from its `count`
/// least significant bytes.
pub proof fn lemma_le_round_trip(n: nat, count: nat)
    requires
        n < pow256(count),
    ensures
        le_value(le_bytes(n, count)) == n,
{
    lemma_le_value_of_bytes(n, count);
    lemma_small_mod(n, pow256(count));
}

/// A magnitude of at most 256 to the power of `k + 1` has a significant-byte
/// count of at most `k`.
pub proof fn lemma_significant_bytes_bound(magnitude: nat, k: nat)
    requires
        magnitude <= pow256(k + 1),
    ensures
        significant_bytes(magnitude) <= k,
    decreases k,
{
    reveal_with_fuel(pow256, 2);
    if magnitude > 256 {
        if k == 0 {
        } else {
            lemma_significant_bytes_bound(magnitude / 256, (k - 1) as nat);
        }
    }
}

/// The significant-byte count of an integer is at most 15.
pub proof fn lemma_integer_count_bound(v: i128)
    ensures
        significant_bytes(magnitude(v)) <= 15,
{
    lemma_pow256_values();
    lemma_significant_bytes_bound(magnitude(v), 15);
}

/// The encoding of every integer `v` is `2 + c` bytes long, where `c` is the
/// significant-byte count of `v`; the count of 0 is 0.
pub proof fn lemma_integer_wire_len(v: i128)
    ensures
        integer_wire(v).len() == 2 + significant_bytes(magnitude(v)),
        significant_bytes(magnitude(0)) == 0,
        integer_wire(0) == seq![0x03u8, 0x00u8],
{
    lemma_le_bytes_len(twos_complement(v), significant_bytes(magnitude(v)) + 1);
    reveal_with_fuel(le_bytes, 2);
}

} // verus!
