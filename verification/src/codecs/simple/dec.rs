//! Decoding from the simple format.

use crate::codecs::dec::Decode;
use crate::codecs::dec::Decoder;
use crate::codecs::numbered;
use crate::codecs::simple::format::from_twos_complement;
use crate::codecs::simple::format::le_value;
use crate::codecs::simple::format::lemma_le_value_bound;
use crate::codecs::simple::format::lemma_pow256_grows;
use crate::codecs::simple::format::lemma_pow256_values;
use crate::codecs::simple::format::parse_value;
use crate::codecs::simple::format::DecodingErrorKind;
use crate::codecs::simple::format::Parsed;
use crate::codecs::simple::format::FLOAT;
use crate::codecs::simple::format::INTEGER;
use crate::codecs::simple::format::OPERATOR;
use crate::codecs::simple::format::STRING;
use crate::codecs::simple::format::STRING_LAST;
use crate::codecs::simple::SimpleScriptCodec;
use crate::codecs::DecodingError;
use crate::item::script_view;
use crate::item::Item;
use crate::item::ItemView;
use crate::item::Script;
use crate::op_systems::simple_math::MathOperator;
use crate::value::Value;
use crate::value::ValueView;
use vstd::prelude::*;
use vstd::slice::slice_subrange;
use vstd::utf8::decode_utf8;
use vstd::utf8::valid_utf8;

verus! {

/// Decodes an item at the start of `bytes`: a value where the first byte is
/// below `0x80`, an operator where it is not.
pub open spec fn parse_item<Op: Decode, Val: Decode>(bytes: Seq<u8>) -> Parsed<
    ItemView<Op::V, Val::V>,
> {
    if bytes.len() == 0 {
        Err(DecodingErrorKind::Eof)
    } else if bytes[0] < OPERATOR {
        match Val::parse(bytes) {
            Ok((value, taken)) => Ok((ItemView::Value(value), taken)),
            Err(kind) => Err(kind),
        }
    } else {
        match Op::parse(bytes) {
            Ok((op, taken)) => Ok((ItemView::Operator(op), taken)),
            Err(kind) => Err(kind),
        }
    }
}

/// The script `first` followed by what `rest` holds, or the failure of
/// `rest`.
pub open spec fn followed_by<T>(first: Seq<T>, rest: Result<Seq<T>, DecodingErrorKind>) -> Result<
    Seq<T>,
    DecodingErrorKind,
> {
    match rest {
        Ok(items) => Ok(first + items),
        Err(kind) => Err(kind),
    }
}

/// Decodes a script from all of `bytes`: item after item until no byte is
/// left. The failure of an item is the failure of the script.
pub open spec fn parse_script<Op: Decode, Val: Decode>(bytes: Seq<u8>) -> Result<
    Seq<ItemView<Op::V, Val::V>>,
    DecodingErrorKind,
>
    decreases bytes.len(),
{
    if bytes.len() == 0 {
        Ok(Seq::empty())
    } else {
        match parse_item::<Op, Val>(bytes) {
            Ok((item, taken)) => if 1 <= taken <= bytes.len() {
                followed_by(seq![item], parse_script::<Op, Val>(bytes.skip(taken as int)))
            } else {
                Err(DecodingErrorKind::Eof)
            },
            Err(kind) => Err(kind),
        }
    }
}

/// The mathematical operator with the opcode `opcode`, if there is one.
pub open spec fn math_operator_of(opcode: u8) -> Option<MathOperator> {
    match opcode {
        0x00 => Some(MathOperator::Add),
        0x01 => Some(MathOperator::Equal),
        0x02 => Some(MathOperator::Mul),
        0x03 => Some(MathOperator::Not),
        0x04 => Some(MathOperator::Sub),
        _ => None,
    }
}

/// Decodes a mathematical operator at the start of `bytes`.
pub open spec fn parse_math_operator(bytes: Seq<u8>) -> Parsed<MathOperator> {
    if bytes.len() == 0 {
        Err(DecodingErrorKind::Eof)
    } else if bytes[0] < OPERATOR {
        Err(DecodingErrorKind::UnknownOpcode)
    } else {
        match math_operator_of((bytes[0] - OPERATOR) as u8) {
            Some(operator) => Ok((operator, 1)),
            None => Err(DecodingErrorKind::UnknownOpcode),
        }
    }
}

/// The number that stands for more bytes is at least the number that their
/// most significant bytes stand for alone.
proof fn lemma_le_value_of_suffix(bytes: Seq<u8>, from: int)
    requires
        0 <= from <= bytes.len(),
    ensures
        le_value(bytes.skip(from)) <= le_value(bytes),
    decreases from,
{
    if from > 0 {
        lemma_le_value_of_suffix(bytes.drop_first(), from - 1);
        assert(bytes.drop_first().skip(from - 1) =~= bytes.skip(from));
    } else {
        assert(bytes.skip(0) =~= bytes);
    }
}

/// Reads the number that at most 16 bytes stand for, the least significant
/// byte first.
fn le_to_u128(bytes: &[u8]) -> (r: u128)
    requires
        bytes@.len() <= 16,
    ensures
        r == le_value(bytes@),
{
    let mut value: u128 = 0;
    let mut at: usize = bytes.len();
    proof {
        lemma_pow256_values();
    }
    while at > 0
        invariant
            at <= bytes@.len() <= 16,
            value == le_value(bytes@.skip(at as int)),
        decreases at,
    {
        proof {
            let higher = bytes@.skip(at as int);
            lemma_le_value_bound(higher);
            lemma_pow256_grows(higher.len(), 15);
            lemma_pow256_values();
            assert(bytes@.skip(at - 1).drop_first() =~= higher);
        }
        at -= 1;
        value = value * 256 + bytes[at] as u128;
    }
    assert(bytes@.skip(0) =~= bytes@);
    value
}

/// Reads the length that the bytes stand for, the least significant byte
/// first, if it is a length that the machine can hold.
fn le_to_length(bytes: &[u8]) -> (r: Option<usize>)
    ensures
        le_value(bytes@) <= usize::MAX ==> r == Some(le_value(bytes@) as usize),
        le_value(bytes@) > usize::MAX ==> r is None,
{
    let mut value: u128 = 0;
    let mut at: usize = bytes.len();
    while at > 0
        invariant
            at <= bytes@.len(),
            value <= usize::MAX,
            value == le_value(bytes@.skip(at as int)),
        decreases at,
    {
        assert(bytes@.skip(at - 1).drop_first() =~= bytes@.skip(at as int));
        at -= 1;
        value = value * 256 + bytes[at] as u128;
        if value > usize::MAX as u128 {
            proof {
                lemma_le_value_of_suffix(bytes@, at as int);
            }
            return None;
        }
    }
    assert(bytes@.skip(0) =~= bytes@);
    Some(value as usize)
}

/// The integer that `n` stands for in two's complement of 128 bits.
fn to_signed(n: u128) -> (r: i128)
    ensures
        r == from_twos_complement(n as nat),
{
    if n < 0x8000_0000_0000_0000_0000_0000_0000_0000u128 {
        n as i128
    } else {
        (n - 0x8000_0000_0000_0000_0000_0000_0000_0000u128) as i128 + i128::MIN
    }
}

/// `String::from_utf8`: the string whose UTF-8 form the bytes are, or `None`
/// where the bytes are not valid UTF-8.
#[verifier::external_body]
fn string_from_utf8(bytes: &[u8]) -> (r: Option<String>)
    ensures
        valid_utf8(bytes@) ==> r is Some && r->Some_0@ == decode_utf8(bytes@),
        !valid_utf8(bytes@) ==> r is None,
{
    String::from_utf8(bytes.to_vec()).ok()
}

impl Decoder for SimpleScriptCodec {
    open spec fn remaining(&self) -> Seq<u8> {
        if self.position() <= self.bytes().len() {
            self.bytes().skip(self.position() as int)
        } else {
            Seq::empty()
        }
    }

    /// Returns the byte at the cursor and leaves the cursor where it is.
    /// Fails with `Eof` when no byte is left.
    fn peek_byte(&self) -> (r: Result<&u8, DecodingError>)
    {
        if self.cursor < self.data.len() {
            Ok(&self.data[self.cursor])
        } else {
            Err(
                DecodingError::new(
                    DecodingErrorKind::Eof,
                    "Decoder cursor hit end of vector".to_owned(),
                ),
            )
        }
    }

    /// Returns the byte at the cursor and moves the cursor behind it. Fails
    /// with `Eof`, and leaves the cursor where it is, when no byte is left.
    fn read_byte(&mut self) -> (r: Result<u8, DecodingError>)
        ensures
            final(self).bytes() == old(self).bytes(),
            r is Ok ==> final(self).position() == old(self).position() + 1,
            r is Err ==> final(self).position() == old(self).position(),
    {
        if self.cursor < self.data.len() {
            let byte = self.data[self.cursor];
            self.cursor += 1;
            Ok(byte)
        } else {
            Err(
                DecodingError::new(
                    DecodingErrorKind::Eof,
                    "Decoder cursor hit end of vector when reading a single byte".to_owned(),
                ),
            )
        }
    }

    /// Returns the `length` bytes from the cursor on and moves the cursor
    /// behind them. Fails with `Eof`, and leaves the cursor where it is, when
    /// fewer than `length` bytes are left.
    fn read_bytes(&mut self, length: usize) -> (r: Result<&[u8], DecodingError>)
        ensures
            final(self).bytes() == old(self).bytes(),
            r is Ok ==> final(self).position() == old(self).position() + length,
            r is Err ==> final(self).position() == old(self).position(),
    {
        if length <= self.bytes_left() {
            let start = if self.cursor <= self.data.len() {
                self.cursor
            } else {
                0
            };
            self.cursor += length;
            let bytes = slice_subrange(self.data.as_slice(), start, start + length);
            Ok(bytes)
        } else {
            Err(
                DecodingError::new(
                    DecodingErrorKind::Eof,
                    numbered(
                        "Decoder cursor hit end of vector when reading as many bytes as",
                        length,
                    ),
                ),
            )
        }
    }

    /// Decodes the integer at the cursor: the discriminant tells how many
    /// bytes of body follow, which are filled up with zeros to 16 bytes and
    /// read as two's complement.
    fn decode_i128(&mut self) -> (r: Result<i128, DecodingError>)
        ensures
            final(self).bytes() == old(self).bytes(),
    {
        let discriminant = self.read_byte()?;
        if discriminant < INTEGER || discriminant > 0x12 {
            return Err(
                DecodingError::new(
                    DecodingErrorKind::UnknownDiscriminant,
                    numbered("Unsupported integer discriminant", discriminant as usize),
                ),
            );
        }
        let length = (discriminant - 0x02) as usize;
        let significant_bytes = self.read_bytes(length)?;
        assert(significant_bytes@ =~= old(self).remaining().subrange(1, 1 + length as int));
        Ok(to_signed(le_to_u128(significant_bytes)))
    }

    /// Decodes the floating point number at the cursor: the bit pattern that
    /// the 8 bytes after the discriminant hold.
    fn decode_f64(&mut self) -> (r: Result<u64, DecodingError>)
        ensures
            final(self).bytes() == old(self).bytes(),
    {
        let discriminant = self.read_byte()?;
        if discriminant != FLOAT {
            return Err(
                DecodingError::new(
                    DecodingErrorKind::UnknownDiscriminant,
                    numbered("Unsupported float discriminant", discriminant as usize),
                ),
            );
        }
        let bytes = self.read_bytes(8)?;
        assert(bytes@ =~= old(self).remaining().subrange(1, 9));
        proof {
            lemma_le_value_bound(bytes@);
            lemma_pow256_values();
        }
        Ok(le_to_u128(bytes) as u64)
    }

    /// Decodes the string at the cursor: the discriminant tells how many
    /// bytes of length follow, and the length how many bytes of UTF-8.
    fn decode_string(&mut self) -> (r: Result<String, DecodingError>)
        ensures
            final(self).bytes() == old(self).bytes(),
    {
        let discriminant = self.read_byte()?;
        if discriminant < STRING || discriminant > STRING_LAST {
            return Err(
                DecodingError::new(
                    DecodingErrorKind::UnknownDiscriminant,
                    numbered("Unsupported string discriminant", discriminant as usize),
                ),
            );
        }
        let length_length = (discriminant - STRING) as usize;
        let length_bytes = self.read_bytes(length_length)?;
        assert(length_bytes@ =~= old(self).remaining().subrange(1, 1 + length_length as int));
        let length = match le_to_length(length_bytes) {
            Some(length) => length,
            None => {
                assert(old(self).bytes().len() == self.data.len());
                return Err(
                    DecodingError::new(
                        DecodingErrorKind::Eof,
                        "Decoder cursor hit end of vector when reading a string".to_owned(),
                    ),
                );
            },
        };
        let bytes = self.read_bytes(length)?;
        assert(bytes@ =~= old(self).remaining().subrange(
            1 + length_length as int,
            1 + length_length as int + length as int,
        ));
        match string_from_utf8(bytes) {
            Some(string) => Ok(string),
            None => Err(
                DecodingError::new(
                    DecodingErrorKind::InvalidUtf8,
                    "Not a valid UTF-8 string".to_owned(),
                ),
            ),
        }
    }
}

impl SimpleScriptCodec {
    /// Decodes the item at the cursor: a value where the byte at the cursor
    /// is below `0x80`, an operator where it is not.
    pub fn decode_item<Op: Decode, Val: Decode>(&mut self) -> (r: Result<
        Item<Op, Val>,
        DecodingError,
    >)
        ensures
            match parse_item::<Op, Val>(old(self).remaining()) {
                Ok((item, taken)) => r is Ok && r->Ok_0@ == item && 1 <= taken <= old(
                    self,
                ).remaining().len() && final(self).remaining() == old(self).remaining().skip(
                    taken as int,
                ),
                Err(kind) => r is Err && r->Err_0.spec_kind() == kind,
            },
    {
        let is_value = match self.peek_byte() {
            Ok(byte) => *byte < OPERATOR,
            Err(e) => {
                return Err(e);
            },
        };
        if is_value {
            match Val::decode(self) {
                Ok(value) => Ok(Item::Value(value)),
                Err(e) => Err(e),
            }
        } else {
            match Op::decode(self) {
                Ok(op) => Ok(Item::Operator(op)),
                Err(e) => Err(e),
            }
        }
    }

    /// Decodes the script that the bytes from the cursor on hold: item after
    /// item until no byte is left. Fails with the error of the first item
    /// that cannot be decoded.
    pub fn decode_script<Op: Decode, Val: Decode>(&mut self) -> (r: Result<
        Script<Op, Val>,
        DecodingError,
    >)
        ensures
            match parse_script::<Op, Val>(old(self).remaining()) {
                Ok(items) => r is Ok && script_view(r->Ok_0@) == items,
                Err(kind) => r is Err && r->Err_0.spec_kind() == kind,
            },
            r is Ok ==> final(self).remaining().len() == 0,
    {
        let mut script: Script<Op, Val> = Vec::new();
        while self.bytes_left() > 0
            invariant
                parse_script::<Op, Val>(old(self).remaining()) == followed_by(
                    script_view(script@),
                    parse_script::<Op, Val>(self.remaining()),
                ),
            decreases self.remaining().len(),
        {
            let ghost done = script_view(script@);
            let item = self.decode_item::<Op, Val>()?;
            proof {
                assert(script_view(script@.push(item)) =~= done + seq![item@]);
                match parse_script::<Op, Val>(self.remaining()) {
                    Ok(rest) => {
                        assert(done + (seq![item@] + rest) =~= (done + seq![item@]) + rest);
                    },
                    Err(_) => {},
                }
            }
            script.push(item);
        }
        Ok(script)
    }

    /// Decodes the script that `input` holds. All the bytes are decoded:
    /// bytes at the end that are no item make the script fail.
    pub fn from_vec<Op: Decode, Val: Decode>(input: Vec<u8>) -> (r: Result<
        Script<Op, Val>,
        DecodingError,
    >)
        ensures
            match parse_script::<Op, Val>(input@) {
                Ok(items) => r is Ok && script_view(r->Ok_0@) == items,
                Err(kind) => r is Err && r->Err_0.spec_kind() == kind,
            },
    {
        let mut codec = SimpleScriptCodec::from_data(input);
        assert(codec.remaining() =~= input@);
        codec.decode_script::<Op, Val>()
    }
}

impl Decode for MathOperator {
    open spec fn parse(bytes: Seq<u8>) -> Parsed<MathOperator> {
        parse_math_operator(bytes)
    }

    fn decode<D: Decoder>(decoder: &mut D) -> (r: Result<Self, DecodingError>) {
        let byte = decoder.read_byte()?;
        if byte < OPERATOR {
            return Err(
                DecodingError::new(
                    DecodingErrorKind::UnknownOpcode,
                    numbered("Not the discriminant of an operator:", byte as usize),
                ),
            );
        }
        let discriminant = byte - OPERATOR;
        match discriminant {
            0x00 => Ok(MathOperator::Add),
            0x01 => Ok(MathOperator::Equal),
            0x02 => Ok(MathOperator::Mul),
            0x03 => Ok(MathOperator::Not),
            0x04 => Ok(MathOperator::Sub),
            x => Err(
                DecodingError::new(
                    DecodingErrorKind::UnknownOpcode,
                    numbered("Unsupported MathOperator", x as usize),
                ),
            ),
        }
    }
}

impl Decode for Value {
    open spec fn parse(bytes: Seq<u8>) -> Parsed<ValueView> {
        parse_value(bytes)
    }

    fn decode<D: Decoder>(decoder: &mut D) -> (r: Result<Self, DecodingError>) {
        let discriminant = match decoder.peek_byte() {
            Ok(byte) => *byte,
            Err(e) => {
                return Err(e);
            },
        };
        if discriminant == 0x00 {
            match decoder.read_byte() {
                Ok(_) => Ok(Value::Boolean(false)),
                Err(e) => Err(e),
            }
        } else if discriminant == 0x01 {
            match decoder.read_byte() {
                Ok(_) => Ok(Value::Boolean(true)),
                Err(e) => Err(e),
            }
        } else if discriminant == FLOAT {
            match decoder.decode_f64() {
                Ok(bits) => Ok(Value::Float(bits)),
                Err(e) => Err(e),
            }
        } else if discriminant <= 0x12 {
            match decoder.decode_i128() {
                Ok(i) => Ok(Value::Integer(i)),
                Err(e) => Err(e),
            }
        } else if discriminant <= STRING_LAST {
            match decoder.decode_string() {
                Ok(string) => Ok(Value::String(string)),
                Err(e) => Err(e),
            }
        } else {
            Err(
                DecodingError::new(
                    DecodingErrorKind::UnknownDiscriminant,
                    numbered("Unsupported value discriminant", discriminant as usize),
                ),
            )
        }
    }
}

} // verus!