//! A simple and compact binary codec.
//!
//! | Value                | Encoding                             |
//! |----------------------|--------------------------------------|
//! | `false`              | `00`                                 |
//! | `3.14`               | `021F85EB51B81E0940`                 |
//! | `255`                | `03FF`                               |
//! | `999999999999999999` | `0AFFFF63A7B3B6E00D`                 |
//! | `i128::MIN`          | `1200000000000000000000000000000080` |
//! | `i128::MAX`          | `12FFFFFFFFFFFFFFFFFFFFFFFFFFFFFF7F` |
//! | `""`                 | `13`                                 |
//! | `"Hello, World!"`    | `140D48656C6C6F2C20576F726C6421`     |

use crate::codecs::dec::Decoder;
use crate::codecs::simple::format::magnitude;
use crate::codecs::simple::format::significant_bytes;
use vstd::prelude::*;

pub mod dec;
pub mod enc;
pub mod format;
pub mod round_trip;

verus! {

/// A buffer of bytes with a cursor: encoding appends to the buffer, and
/// decoding reads from the cursor on.
pub struct SimpleScriptCodec {
    data: Vec<u8>,
    cursor: usize,
}

impl SimpleScriptCodec {
    /// All the bytes that the codec holds.
    pub closed spec fn bytes(&self) -> Seq<u8> {
        self.data@
    }

    /// The place of the cursor: the number of bytes that have been read.
    pub closed spec fn position(&self) -> nat {
        self.cursor as nat
    }

    /// A codec that holds no bytes.
    pub fn new() -> (r: Self)
        ensures
            r.bytes() == Seq::<u8>::empty(),
            r.position() == 0,
    {
        SimpleScriptCodec { data: Vec::new(), cursor: 0 }
    }

    /// Gives up the codec for the bytes that it holds.
    pub fn data(self) -> (r: Vec<u8>)
        ensures
            r@ == self.bytes(),
    {
        self.data
    }

    /// Appends a byte to the bytes that the codec holds.
    pub fn data_push(&mut self, input: u8)
        ensures
            final(self).bytes() == old(self).bytes().push(input),
            final(self).position() == old(self).position(),
    {
        self.data.push(input)
    }

    /// A codec that holds `data`, with its cursor at the start.
    pub fn from_data(data: Vec<u8>) -> (r: Self)
        ensures
            r.bytes() == data@,
            r.position() == 0,
    {
        SimpleScriptCodec { data, cursor: 0 }
    }

    /// The number of bytes that have not been read yet.
    pub fn bytes_left(&self) -> (r: usize)
        ensures
            r == self.remaining().len(),
    {
        if self.cursor <= self.data.len() {
            self.data.len() - self.cursor
        } else {
            0
        }
    }
}

impl Default for SimpleScriptCodec {
    fn default() -> (r: Self)
        ensures
            r.bytes() == Seq::<u8>::empty(),
            r.position() == 0,
    {
        SimpleScriptCodec::new()
    }
}

/// Tells how many significant bytes a number takes: how often its absolute
/// value has to be shifted right by 8 bits until it is at most 256. One byte
/// more than this count is written of the number.
pub fn significant_bytes_count(input: i128) -> (r: usize)
    ensures
        r == significant_bytes(magnitude(input)),
        r <= 15,
{
    let mut dividend: u128 = if input == i128::MIN {
        i128::MAX as u128
    } else if input < 0 {
        (-input) as u128
    } else {
        input as u128
    };
    let mut counter: usize = 0;
    proof {
        format::lemma_integer_count_bound(input);
    }
    while dividend > 256
        invariant
            significant_bytes(magnitude(input)) == counter + significant_bytes(dividend as nat),
            significant_bytes(magnitude(input)) <= 15,
        decreases dividend,
    {
        assert(dividend >> 8 == dividend / 256) by (bit_vector);
        dividend = dividend >> 8;
        counter += 1;
    }
    counter
}

} // verus!
