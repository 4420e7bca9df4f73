//! The expansion of one macro input: from the tokens handed to the macro to
//! the bytes that take their place, or to the diagnostic that is reported.

use vstd::prelude::*;
use crate::artifact::{is_terminated, ZStr};
use crate::diagnostic::{Diagnostic, ErrorKind};
use crate::literal::Literal;
use crate::scan::{is_first_zero, zero_free};
use crate::syntax::{
    byte_string_bytes, byte_string_position, decoded_literal, literal_position, parse_lit,
    parsed_literal, read_literal,
};
use crate::terminate::{accepts, lemma_accepted_round_trip, refuses, terminate};

verus! {

/// The bytes that take the place of a literal, and the position of that
/// literal in the source.
#[derive(Debug)]
pub struct Expansion {
    pub bytes: ZStr,
    pub span: proc_macro2::Span,
}

impl Expansion {
    /// The byte string literal token that is spliced into the source: all
    /// bytes, the terminating zero included, at the position of the input.
    pub fn literal(&self) -> (lit: syn::LitByteStr)
        ensures
            byte_string_bytes(lit) == self.bytes@,
            byte_string_position(lit) == self.span,
    {
        syn::LitByteStr::new(self.bytes.to_bytes_with_nul(), self.span)
    }
}

/// Terminates `literal`, which stands at `span`. The bytes and the diagnostic
/// alike are tied to `span`, the position of the literal itself.
pub fn expand_literal(literal: Literal, span: proc_macro2::Span) -> (r: Result<
    Expansion,
    Diagnostic,
>)
    ensures
        match r {
            Ok(expansion) => accepts(literal, expansion.bytes@) && expansion.span == span,
            Err(diagnostic) => refuses(literal, diagnostic.kind) && diagnostic.span == span,
        },
{
    match terminate(literal) {
        Ok(bytes) => Ok(Expansion { bytes, span }),
        Err(kind) => Err(Diagnostic { kind, span }),
    }
}

/// Expands the input of the macro: reads it as one literal, terminates what
/// the literal stands for, and ties the outcome to the position of the
/// literal.
///
/// Tokens that are no literal at all are refused as
/// `ErrorKind::WrongLiteralKind`, at the position that the parser's error
/// points at on this thread. A literal that is neither a string nor a byte
/// string is refused in the same way at its own position, and a zero byte in
/// the decoded bytes as `ErrorKind::EmbeddedZero` with the index of the first
/// one.
pub fn expand_zstr(input: proc_macro2::TokenStream) -> (r: Result<Expansion, Diagnostic>)
    ensures
        r matches Ok(expansion) ==> is_terminated(expansion.bytes@),
        match parsed_literal(input) {
            None => r matches Err(diagnostic) && diagnostic.kind == ErrorKind::WrongLiteralKind,
            Some(lit) => match decoded_literal(lit) {
                None => r matches Err(diagnostic) && diagnostic.kind
                    == ErrorKind::WrongLiteralKind && diagnostic.span == literal_position(lit),
                Some(bytes) => if zero_free(bytes) {
                    r matches Ok(expansion) && expansion.bytes@ == bytes.push(0) && expansion.span
                        == literal_position(lit)
                } else {
                    r matches Err(diagnostic) && (diagnostic.kind matches ErrorKind::EmbeddedZero {
                        index,
                    } && is_first_zero(bytes, index as int)) && diagnostic.span
                        == literal_position(lit)
                },
            },
        },
{
    let (literal, span) = match parse_lit(input) {
        Err(error) => (Literal::Other, error.span()),
        Ok(lit) => {
            let span = lit.span();
            (read_literal(lit), span)
        },
    };
    let ghost read = literal;
    let r = expand_literal(literal, span);
    proof {
        if r is Ok {
            lemma_accepted_round_trip(read, r->Ok_0.bytes@);
        }
    }
    r
}

} // verus!
