//! The literals that can be terminated, as plain values.

use vstd::prelude::*;
use vstd::string::StrSliceExecFns;
use vstd::utf8::encode_utf8;

verus! {

/// A literal token with its escapes resolved.
#[derive(Clone, Debug)]
pub enum Literal {
    /// A string literal: a sequence of Unicode scalar values.
    Text(String),
    /// A byte string literal: a sequence of raw bytes.
    Binary(Vec<u8>),
    /// Anything else: another literal, such as a number or a character, or
    /// tokens that are no literal at all.
    Other,
}

impl Literal {
    /// The bytes that the literal stands for: the UTF-8 encoding of a string
    /// literal, the bytes of a byte string literal as they are, and nothing
    /// for any other literal.
    pub open spec fn decoded(&self) -> Option<Seq<u8>> {
        match self {
            Literal::Text(text) => Some(encode_utf8(text@)),
            Literal::Binary(bytes) => Some(bytes@),
            Literal::Other => None,
        }
    }

    /// Decodes the literal to its bytes.
    pub fn decode(self) -> (bytes: Option<Vec<u8>>)
        ensures
            bytes is Some <==> self.decoded() is Some,
            bytes matches Some(b) ==> self.decoded() == Some(b@),
    {
        match self {
            Literal::Text(text) => Some(text.as_str().as_bytes_vec()),
            Literal::Binary(bytes) => Some(bytes),
            Literal::Other => None,
        }
    }
}

} // verus!
