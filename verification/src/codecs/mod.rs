//! Codecs: ways to encode scripts into compact binary formats and to decode
//! them from there.

use crate::codecs::simple::format::DecodingErrorKind;
use vstd::prelude::*;

pub mod dec;
pub mod enc;
pub mod simple;

verus! {

/// What all the errors of the codecs have in common: each can be made from
/// a message.
pub trait Error: Sized {
    /// The message of the error.
    spec fn text(&self) -> Seq<char>;

    /// Makes an error with the message `input`.
    fn from_str(input: &str) -> (r: Self)
        ensures
            r.text() == input@,
    ;
}

/// A script could not be encoded.
#[derive(Debug, PartialEq)]
pub struct EncodingError(String);

/// A sequence of bytes could not be decoded: of which kind the failure is,
/// and a message for a human reader.
#[derive(Debug, PartialEq)]
pub struct DecodingError {
    kind: DecodingErrorKind,
    message: String,
}

/// `format!`: a message made of `text` and the number `number`.
#[verifier::external_body]
pub(crate) fn numbered(text: &str, number: usize) -> String {
    format!("{} {}", text, number)
}

impl Error for EncodingError {
    closed spec fn text(&self) -> Seq<char> {
        self.0@
    }

    fn from_str(input: &str) -> (r: Self) {
        EncodingError(input.to_owned())
    }
}

impl EncodingError {
    /// The message of the error.
    pub fn message(&self) -> (r: &str)
        ensures
            r@ == self.text(),
    {
        self.0.as_str()
    }
}

impl Error for DecodingError {
    closed spec fn text(&self) -> Seq<char> {
        self.message@
    }

    fn from_str(input: &str) -> (r: Self)
        ensures
            r.spec_kind() == DecodingErrorKind::Other,
    {
        DecodingError { kind: DecodingErrorKind::Other, message: input.to_owned() }
    }
}

impl DecodingError {
    /// The kind of the failure.
    pub closed spec fn spec_kind(&self) -> DecodingErrorKind {
        self.kind
    }

    /// Makes an error of the kind `kind` with the message `message`.
    pub fn new(kind: DecodingErrorKind, message: String) -> (r: Self)
        ensures
            r.spec_kind() == kind,
            r.text() == message@,
    {
        DecodingError { kind, message }
    }

    /// The kind of the failure.
    pub fn kind(&self) -> (r: DecodingErrorKind)
        ensures
            r == self.spec_kind(),
    {
        self.kind
    }

    /// The message of the error.
    pub fn message(&self) -> (r: &str)
        ensures
            r@ == self.text(),
    {
        self.message.as_str()
    }
}

} // verus!
