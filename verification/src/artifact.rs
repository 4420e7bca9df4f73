//! The zero-terminated byte sequence.

use vstd::prelude::*;
use vstd::slice::slice_subrange;
use crate::scan::{first_zero, is_first_zero, zero_free};

verus! {

/// The zero byte occurs in `s` exactly once, as its last byte.
pub open spec fn is_terminated(s: Seq<u8>) -> bool {
    &&& s.len() > 0
    &&& forall|i: int| 0 <= i < s.len() ==> (#[trigger] s[i] == 0 <==> i == s.len() - 1)
}

/// `Vec::reserve_exact` of std: makes room for `additional` more bytes and
/// leaves the contents as they are. std documents a panic when the new
/// capacity would exceed `isize::MAX` bytes; that case is left out.
#[verifier::external_body]
fn reserve_exact(bytes: &mut Vec<u8>, additional: usize)
    requires
        old(bytes)@.len() + additional <= isize::MAX,
    ensures
        final(bytes)@ == old(bytes)@,
{
    bytes.reserve_exact(additional);
}

/// A byte sequence that is zero-terminated and has no interior zero byte.
///
/// The only way to obtain one is [`ZStr::new`], so a consumer may read the
/// bytes up to the first zero and be sure to have read all of them.
#[derive(Debug)]
pub struct ZStr {
    bytes: Vec<u8>,
}

impl ZStr {
    #[verifier::type_invariant]
    spec fn terminated(&self) -> bool {
        is_terminated(self.bytes@)
    }

    /// All bytes, the terminating zero included.
    pub closed spec fn view(&self) -> Seq<u8> {
        self.bytes@
    }

    /// The bytes before the terminating zero.
    pub open spec fn content(&self) -> Seq<u8> {
        self@.drop_last()
    }

    /// Checks that `bytes` holds no zero byte and appends the terminator.
    ///
    /// On a zero byte the position of the first one is returned; nothing is
    /// repaired or cut off.
    pub fn new(bytes: Vec<u8>) -> (r: Result<ZStr, usize>)
        ensures
            r is Ok <==> zero_free(bytes@),
            match r {
                Ok(z) => z@ == bytes@.push(0) && z.content() == bytes@ && is_terminated(z@),
                Err(index) => is_first_zero(bytes@, index as int),
            },
    {
        let mut bytes = bytes;
        match first_zero(bytes.as_slice()) {
            Some(index) => Err(index),
            None => {
                let ghost content = bytes@;
                // Room for the terminator and no more: the length is final.
                if bytes.len() < isize::MAX as usize {
                    reserve_exact(&mut bytes, 1);
                }
                bytes.push(0);
                assert(bytes@.drop_last() == content);
                Ok(ZStr { bytes })
            },
        }
    }

    /// All bytes, the terminating zero included.
    pub fn to_bytes_with_nul(&self) -> (bytes: &[u8])
        ensures
            bytes@ == self@,
            is_terminated(bytes@),
    {
        proof {
            use_type_invariant(self);
        }
        self.bytes.as_slice()
    }

    /// The bytes before the terminating zero.
    pub fn to_bytes(&self) -> (bytes: &[u8])
        ensures
            bytes@ == self.content(),
            zero_free(bytes@),
    {
        proof {
            use_type_invariant(self);
        }
        slice_subrange(self.bytes.as_slice(), 0, self.bytes.len() - 1)
    }
}

} // verus!
