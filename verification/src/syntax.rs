//! The token-level types of `proc_macro2` and `syn`, and what is read from
//! them. Nothing inside these values is visible to the proofs: what the
//! parser finds in them has a name here, and a literal is turned into a
//! [`Literal`] of plain values before any rule is applied.

use vstd::prelude::*;
use vstd::utf8::encode_utf8;
use crate::literal::Literal;

verus! {

#[verifier::external_type_specification]
#[verifier::external_body]
pub struct ExTokenStream(proc_macro2::TokenStream);

#[verifier::external_type_specification]
#[verifier::external_body]
pub struct ExSpan(proc_macro2::Span);

#[verifier::external_type_specification]
#[verifier::external_body]
pub struct ExLit(syn::Lit);

#[verifier::external_type_specification]
#[verifier::external_body]
pub struct ExLitStr(syn::LitStr);

#[verifier::external_type_specification]
#[verifier::external_body]
pub struct ExLitByteStr(syn::LitByteStr);

#[verifier::external_type_specification]
#[verifier::external_body]
pub struct ExError(syn::Error);

/// The literal that the parser reads from a token stream, where the whole
/// stream is one literal.
pub uninterp spec fn parsed_literal(input: proc_macro2::TokenStream) -> Option<syn::Lit>;

/// The source position of a literal.
pub uninterp spec fn literal_position(lit: syn::Lit) -> proc_macro2::Span;

/// The string literal that `lit` is, where it is one.
pub uninterp spec fn as_string(lit: syn::Lit) -> Option<syn::LitStr>;

/// The byte string literal that `lit` is, where it is one.
pub uninterp spec fn as_byte_string(lit: syn::Lit) -> Option<syn::LitByteStr>;

/// The text that a string literal token holds, escapes resolved.
pub uninterp spec fn string_text(lit: syn::LitStr) -> Seq<char>;

/// The bytes that a byte string literal token holds, escapes resolved.
pub uninterp spec fn byte_string_bytes(lit: syn::LitByteStr) -> Seq<u8>;

/// The source position that a byte string literal token was made with.
pub uninterp spec fn byte_string_position(lit: syn::LitByteStr) -> proc_macro2::Span;

/// The messages that an error of the parser holds, in the order in which
/// they are reported.
pub uninterp spec fn error_messages(error: syn::Error) -> Seq<Seq<char>>;

/// The source position that an error of the parser was made with.
/// `syn::Error::span` gives it back only on the thread that made the error,
/// so nothing is said here of what that method returns.
pub uninterp spec fn error_position(error: syn::Error) -> proc_macro2::Span;

/// The bytes that a literal token stands for: the UTF-8 encoding of the text
/// of a string literal, the bytes of a byte string literal, and nothing for
/// any other literal.
pub open spec fn decoded_literal(lit: syn::Lit) -> Option<Seq<u8>> {
    match as_string(lit) {
        Some(text) => Some(encode_utf8(string_text(text))),
        None => match as_byte_string(lit) {
            Some(bytes) => Some(byte_string_bytes(bytes)),
            None => None,
        },
    }
}

/// `syn::Lit::span`: the source position of a literal.
pub assume_specification[ syn::Lit::span ](lit: &syn::Lit) -> (span: proc_macro2::Span)
    ensures
        span == literal_position(*lit),
;

/// `syn::Error::span`: the source position that an error points at, as seen
/// from the calling thread.
pub assume_specification[ syn::Error::span ](error: &syn::Error) -> proc_macro2::Span;

/// `syn::LitStr::value`: reads the text that the literal holds.
pub assume_specification[ syn::LitStr::value ](lit: &syn::LitStr) -> (text: String)
    ensures
        text@ == string_text(*lit),
;

/// `syn::LitByteStr::value`: reads the bytes that the literal holds.
pub assume_specification[ syn::LitByteStr::value ](lit: &syn::LitByteStr) -> (bytes: Vec<u8>)
    ensures
        bytes@ == byte_string_bytes(*lit),
;

/// `syn::LitByteStr::new`: a byte string literal token positioned at `span`.
/// It writes `value` with escapes, so that the token holds exactly the bytes
/// of `value`, whatever they are. `proc_macro2` panics where `span` is of
/// another token source than the one in use (the compiler's or its own),
/// which takes a switch of the source between the making of the span and
/// this call.
pub assume_specification[ syn::LitByteStr::new ](
    value: &[u8],
    span: proc_macro2::Span,
) -> (lit: syn::LitByteStr)
    ensures
        byte_string_bytes(lit) == value@,
        byte_string_position(lit) == span,
;

/// `syn::Error::new`: an error of the parser's own kind that is made with the
/// position `span` and holds one message, `message` as it is.
#[verifier::external_body]
pub(crate) fn new_error(span: proc_macro2::Span, message: String) -> (error: syn::Error)
    ensures
        error_messages(error) == seq![message@],
        error_position(error) == span,
{
    syn::Error::new(span, message)
}

/// `syn::parse2` at `syn::Lit`: reads the whole token stream as one literal,
/// or fails where the stream is anything else. The error is of the parser's
/// making and nothing is claimed of it.
#[verifier::external_body]
pub(crate) fn parse_lit(input: proc_macro2::TokenStream) -> (r: Result<syn::Lit, syn::Error>)
    ensures
        match r {
            Ok(lit) => parsed_literal(input) == Some(lit),
            Err(_) => parsed_literal(input) is None,
        },
{
    syn::parse2::<syn::Lit>(input)
}

/// The variants of `syn::Lit` that can be terminated, each with its payload.
enum Quoted {
    Str(syn::LitStr),
    ByteStr(syn::LitByteStr),
    Other,
}

/// Tells the variants of `syn::Lit` apart and hands out the payload of a
/// string or a byte string literal as it is.
#[verifier::external_body]
fn quoted(lit: syn::Lit) -> (q: Quoted)
    ensures
        match q {
            Quoted::Str(text) => as_string(lit) == Some(text),
            Quoted::ByteStr(bytes) => as_string(lit) is None && as_byte_string(lit) == Some(bytes),
            Quoted::Other => as_string(lit) is None && as_byte_string(lit) is None,
        },
{
    match lit {
        syn::Lit::Str(lit) => Quoted::Str(lit),
        syn::Lit::ByteStr(lit) => Quoted::ByteStr(lit),
        _ => Quoted::Other,
    }
}

/// Reads a literal token as plain values.
pub(crate) fn read_literal(lit: syn::Lit) -> (literal: Literal)
    ensures
        literal.decoded() == decoded_literal(lit),
        literal is Text <==> as_string(lit) is Some,
        literal is Other <==> decoded_literal(lit) is None,
{
    match quoted(lit) {
        Quoted::Str(lit) => Literal::Text(lit.value()),
        Quoted::ByteStr(lit) => Literal::Binary(lit.value()),
        Quoted::Other => Literal::Other,
    }
}

} // verus!
