//! What can be decoded, and what decodes.

use crate::codecs::simple::format::parse_float;
use crate::codecs::simple::format::parse_integer;
use crate::codecs::simple::format::parse_string;
use crate::codecs::simple::format::DecodingErrorKind;
use crate::codecs::simple::format::Parsed;
use crate::codecs::DecodingError;
use vstd::prelude::*;

verus! {

/// Something that bytes are read from, one after the other. A read that
/// fails leaves the bytes that are left as they are.
pub trait Decoder: Sized {
    /// The bytes that have not been read yet.
    spec fn remaining(&self) -> Seq<u8>;

    /// Returns the next byte and leaves it to be read again. Fails with
    /// `Eof` when no byte is left.
    fn peek_byte(&self) -> (r: Result<&u8, DecodingError>)
        ensures
            self.remaining().len() > 0 ==> r is Ok && *r->Ok_0 == self.remaining()[0],
            self.remaining().len() == 0 ==> r is Err && r->Err_0.spec_kind()
                == DecodingErrorKind::Eof,
    ;

    /// Reads the next byte. Fails with `Eof` when no byte is left.
    fn read_byte(&mut self) -> (r: Result<u8, DecodingError>)
        ensures
            old(self).remaining().len() > 0 ==> r is Ok && r->Ok_0 == old(self).remaining()[0]
                && final(self).remaining() == old(self).remaining().skip(1),
            old(self).remaining().len() == 0 ==> r is Err && r->Err_0.spec_kind()
                == DecodingErrorKind::Eof && final(self).remaining() == old(self).remaining(),
    ;

    /// Reads the next `length` bytes. Fails with `Eof` when fewer than
    /// `length` bytes are left.
    fn read_bytes(&mut self, length: usize) -> (r: Result<&[u8], DecodingError>)
        ensures
            length <= old(self).remaining().len() ==> r is Ok && r->Ok_0@ == old(
                self,
            ).remaining().take(length as int) && final(self).remaining() == old(
                self,
            ).remaining().skip(length as int),
            length > old(self).remaining().len() ==> r is Err && r->Err_0.spec_kind()
                == DecodingErrorKind::Eof && final(self).remaining() == old(self).remaining(),
    ;

    /// Decodes the integer that comes next: the discriminant tells how many
    /// bytes of body follow, which are filled up with zeros to 16 bytes and
    /// read as two's complement.
    fn decode_i128(&mut self) -> (r: Result<i128, DecodingError>)
        ensures
            match parse_integer(old(self).remaining()) {
                Ok((v, taken)) => r is Ok && r->Ok_0 == v && 1 <= taken <= old(
                    self,
                ).remaining().len() && final(self).remaining() == old(self).remaining().skip(
                    taken as int,
                ),
                Err(kind) => r is Err && r->Err_0.spec_kind() == kind,
            },
    ;

    /// Decodes the floating point number that comes next: the bit pattern
    /// that the 8 bytes after the discriminant hold.
    fn decode_f64(&mut self) -> (r: Result<u64, DecodingError>)
        ensures
            match parse_float(old(self).remaining()) {
                Ok((bits, taken)) => r is Ok && r->Ok_0 == bits && 1 <= taken <= old(
                    self,
                ).remaining().len() && final(self).remaining() == old(self).remaining().skip(
                    taken as int,
                ),
                Err(kind) => r is Err && r->Err_0.spec_kind() == kind,
            },
    ;

    /// Decodes the string that comes next: the discriminant tells how many
    /// bytes of length follow, and the length how many bytes of UTF-8.
    fn decode_string(&mut self) -> (r: Result<String, DecodingError>)
        ensures
            match parse_string(old(self).remaining()) {
                Ok((chars, taken)) => r is Ok && r->Ok_0@ == chars && 1 <= taken <= old(
                    self,
                ).remaining().len() && final(self).remaining() == old(self).remaining().skip(
                    taken as int,
                ),
                Err(kind) => r is Err && r->Err_0.spec_kind() == kind,
            },
    ;
}

/// A kind of operator or value that can be decoded.
pub trait Decode: View + Sized {
    /// What stands at the start of `bytes`, and the number of bytes that it
    /// takes, or why nothing of this kind stands there.
    spec fn parse(bytes: Seq<u8>) -> Parsed<Self::V>;

    /// Decodes what comes next in `decoder`. It takes at least one byte.
    fn decode<D: Decoder>(decoder: &mut D) -> (r: Result<Self, DecodingError>)
        ensures
            match Self::parse(old(decoder).remaining()) {
                Ok((v, taken)) => r is Ok && r->Ok_0@ == v && 1 <= taken <= old(
                    decoder,
                ).remaining().len() && final(decoder).remaining() == old(
                    decoder,
                ).remaining().skip(taken as int),
                Err(kind) => r is Err && r->Err_0.spec_kind() == kind,
            },
    ;
}

} // verus!
