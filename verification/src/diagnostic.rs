//! Why a literal was refused, and where.

use vstd::prelude::*;
use vstd::string::StringExecFns;
use crate::syntax::{error_messages, error_position, new_error};

verus! {

/// The two reasons for refusing a token.
#[derive(Clone, Copy, Debug, PartialEq, Eq, Structural)]
pub enum ErrorKind {
    /// The token is neither a string literal nor a byte string literal.
    WrongLiteralKind,
    /// The decoded bytes hold a zero byte; `index` is the position of the
    /// first one.
    EmbeddedZero { index: usize },
}

/// A refusal together with the source position it is reported at.
#[derive(Clone, Copy, Debug)]
pub struct Diagnostic {
    pub kind: ErrorKind,
    pub span: proc_macro2::Span,
}

/// The character for the decimal digit `d`, for `d` from 0 to 9.
pub open spec fn digit(d: int) -> char {
    ('0' as int + d) as char
}

/// `n` written in base ten, without leading zeros.
pub open spec fn decimal(n: nat) -> Seq<char>
    decreases n,
{
    if n < 10 {
        seq![digit(n as int)]
    } else {
        decimal(n / 10).push(digit((n % 10) as int))
    }
}

/// The text that reports `kind`.
pub open spec fn message_text(kind: ErrorKind) -> Seq<char> {
    match kind {
        ErrorKind::WrongLiteralKind => "expected a string or byte string literal"@,
        ErrorKind::EmbeddedZero { index } => "C string contains an embedded NUL byte at index "@
            + decimal(index as nat),
    }
}

/// The digit `d` as a string of one character.
fn digit_str(d: usize) -> (s: &'static str)
    requires
        d < 10,
    ensures
        s@ == seq![digit(d as int)],
{
    proof {
        reveal_strlit("0");
        reveal_strlit("1");
        reveal_strlit("2");
        reveal_strlit("3");
        reveal_strlit("4");
        reveal_strlit("5");
        reveal_strlit("6");
        reveal_strlit("7");
        reveal_strlit("8");
        reveal_strlit("9");
    }
    let s = match d {
        0 => "0",
        1 => "1",
        2 => "2",
        3 => "3",
        4 => "4",
        5 => "5",
        6 => "6",
        7 => "7",
        8 => "8",
        _ => "9",
    };
    assert(s@ =~= seq![digit(d as int)]);
    s
}

/// Appends `n` in base ten to `text`.
fn append_decimal(text: &mut String, n: usize)
    ensures
        final(text)@ == old(text)@ + decimal(n as nat),
    decreases n,
{
    if n >= 10 {
        append_decimal(text, n / 10);
    }
    text.append(digit_str(n % 10));
}

impl ErrorKind {
    /// The text that reports this refusal.
    pub fn message(&self) -> (text: String)
        ensures
            text@ == message_text(*self),
    {
        match self {
            ErrorKind::WrongLiteralKind => String::from_str(
                "expected a string or byte string literal",
            ),
            ErrorKind::EmbeddedZero { index } => {
                let mut text = String::from_str("C string contains an embedded NUL byte at index ");
                append_decimal(&mut text, *index);
                text
            },
        }
    }
}

impl Diagnostic {
    /// The text that reports this refusal.
    pub fn message(&self) -> (text: String)
        ensures
            text@ == message_text(self.kind),
    {
        self.kind.message()
    }

    /// The error that the parser's own machinery reports: the message, at
    /// the position of the refused token.
    pub fn to_error(&self) -> (error: syn::Error)
        ensures
            error_messages(error) == seq![message_text(self.kind)],
            error_position(error) == self.span,
    {
        new_error(self.span, self.message())
    }
}

} // verus!
