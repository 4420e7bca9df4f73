//! Zero-terminated byte strings from string and byte string literals.
//!
//! A literal is decoded to bytes, checked to hold no zero byte, and closed
//! with exactly one zero byte. The result is an [`artifact::ZStr`]: a byte
//! sequence whose only zero byte is its last one, which a consumer may read
//! up to the terminator without knowing its length.
//!
//! [`terminate::terminate`] works on plain values and carries the rules.
//! [`expand::expand_zstr`] is the same step for the tokens of a macro input:
//! it reads the literal with `syn` and ties the outcome to the position of
//! the literal in the source.

pub mod artifact;
pub mod diagnostic;
pub mod expand;
pub mod literal;
pub mod scan;
pub mod syntax;
pub mod terminate;
