//! From a literal to its zero-terminated bytes, or to the reason why it has
//! none.

use vstd::prelude::*;
use crate::artifact::{is_terminated, ZStr};
use crate::diagnostic::ErrorKind;
use crate::literal::Literal;
use crate::scan::{is_first_zero, zero_free};

verus! {

/// `literal` is accepted with the bytes `out`: it is a string or a byte
/// string, its bytes hold no zero, and `out` is those bytes followed by one
/// zero byte.
pub open spec fn accepts(literal: Literal, out: Seq<u8>) -> bool {
    literal.decoded() matches Some(decoded) && zero_free(decoded) && out == decoded.push(0)
}

/// `literal` is refused for the reason `kind`.
pub open spec fn refuses(literal: Literal, kind: ErrorKind) -> bool {
    match kind {
        ErrorKind::WrongLiteralKind => literal.decoded() is None,
        ErrorKind::EmbeddedZero { index } => literal.decoded() matches Some(decoded)
            && is_first_zero(decoded, index as int),
    }
}

/// Decodes `literal`, checks the bytes for a zero byte and appends the
/// terminator.
///
/// A literal that is neither a string nor a byte string is refused as
/// [`ErrorKind::WrongLiteralKind`]. A zero byte anywhere in the decoded bytes,
/// the last position included, is refused as [`ErrorKind::EmbeddedZero`] with
/// the position of the first one.
pub fn terminate(literal: Literal) -> (r: Result<ZStr, ErrorKind>)
    ensures
        match r {
            Ok(z) => accepts(literal, z@),
            Err(kind) => refuses(literal, kind),
        },
        r is Ok <==> (literal.decoded() matches Some(decoded) && zero_free(decoded)),
        (r matches Err(ErrorKind::WrongLiteralKind)) <==> literal.decoded() is None,
        (r matches Err(ErrorKind::EmbeddedZero { .. })) <==> (literal.decoded() matches Some(
            decoded,
        ) && !zero_free(decoded)),
        r matches Ok(z) ==> z.content() == literal.decoded().unwrap() && is_terminated(z@),
{
    match literal.decode() {
        None => Err(ErrorKind::WrongLiteralKind),
        Some(bytes) => match ZStr::new(bytes) {
            Ok(z) => Ok(z),
            Err(index) => Err(ErrorKind::EmbeddedZero { index }),
        },
    }
}

/// `outcome` is what [`terminate`] may return for `literal`, the bytes taken
/// by their view.
pub open spec fn is_outcome(literal: Literal, outcome: Result<Seq<u8>, ErrorKind>) -> bool {
    match outcome {
        Ok(out) => accepts(literal, out),
        Err(kind) => refuses(literal, kind),
    }
}

/// A literal has one outcome only: checking it again gives the same bytes, or
/// the same kind of refusal with the same index.
pub proof fn lemma_outcome_unique(
    literal: Literal,
    first: Result<Seq<u8>, ErrorKind>,
    second: Result<Seq<u8>, ErrorKind>,
)
    requires
        is_outcome(literal, first),
        is_outcome(literal, second),
    ensures
        first == second,
{
}

/// What is accepted gives the decoded bytes back when the last byte is taken
/// off, and holds the zero byte exactly once, as that last byte.
pub proof fn lemma_accepted_round_trip(literal: Literal, out: Seq<u8>)
    requires
        accepts(literal, out),
    ensures
        Some(out.drop_last()) == literal.decoded(),
        out.last() == 0,
        is_terminated(out),
{
    let decoded = literal.decoded().unwrap();
    assert(decoded.push(0).drop_last() == decoded);
}

} // verus!
