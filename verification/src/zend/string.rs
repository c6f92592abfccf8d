//! Byte-string cells and the borrowed view over them.
//!
//! The runtime stores a string as a length-prefixed byte buffer.  The view
//! borrows those bytes without copying; equality is byte equality, and
//! conversion to host text assumes the runtime's caller-guaranteed UTF-8
//! encoding without re-validating it.

use vstd::prelude::*;

use vstd::slice::{slice_index_get, slice_to_vec};
use vstd::utf8::{encode_utf8, valid_utf8};

use crate::zend::ZendRefCountedH;

verus! {

/// A string object of the runtime: its reference-count header, its
/// precomputed hash slot, and the bytes themselves.  The byte vector's
/// length is the string's length prefix.
#[derive(Debug, PartialEq)]
pub struct ZendString {
    pub gc: ZendRefCountedH,
    pub h: u32,
    pub bytes: Vec<u8>,
}

impl ZendString {
    /// The string's length in bytes.
    pub fn len(&self) -> (n: usize)
        ensures
            n == self.bytes@.len(),
    {
        self.bytes.len()
    }

    /// A borrowed byte view of this string.
    pub fn as_zstr<'a>(&'a self) -> (s: ZStr<'a>)
        ensures
            s.buf@ == self.bytes@,
    {
        ZStr { buf: self.bytes.as_slice() }
    }
}

/// A borrowed byte span over a string stored in runtime memory.  The view
/// is valid only while the phase that produced it is live.
#[derive(Copy, Clone, Debug, PartialEq, Eq)]
pub struct ZStr<'a> {
    pub buf: &'a [u8],
}

impl<'a> ZStr<'a> {
    /// Views an existing byte span.
    pub fn new(buf: &'a [u8]) -> (s: ZStr<'a>)
        ensures
            s.buf@ == buf@,
    {
        ZStr { buf }
    }

    /// The bytes behind the view.
    pub fn bytes(&self) -> (b: &'a [u8])
        ensures
            b@ == self.buf@,
    {
        self.buf
    }

    /// The view's length in bytes.
    pub fn len(&self) -> (n: usize)
        ensures
            n == self.buf@.len(),
    {
        self.buf.len()
    }

    /// Byte-for-byte equality with another view; identity of the underlying
    /// storage plays no part.
    pub fn eq_bytes(&self, other: &ZStr<'_>) -> (r: bool)
        ensures
            r <==> self.buf@ == other.buf@,
    {
        if self.buf.len() != other.buf.len() {
            proof {
                assert(self.buf@ != other.buf@);
            }
            return false;
        }
        let n = self.buf.len();
        let mut i: usize = 0;
        while i < n
            invariant
                n == self.buf@.len() && n == other.buf@.len(),
                i <= n,
                forall|j: int| 0 <= j < i ==> self.buf@[j] == other.buf@[j],
            decreases n - i,
        {
            if *slice_index_get(self.buf, i) != *slice_index_get(other.buf, i) {
                return false;
            }
            i = i + 1;
        }
        proof {
            assert(self.buf@ =~= other.buf@);
        }
        true
    }

    /// The bytes as host text.  The runtime guarantees its strings are
    /// UTF-8, and this conversion relies on that guarantee rather than
    /// re-checking it, so the caller owes the validity.
    pub fn to_string(&self) -> (s: String)
        requires
            valid_utf8(self.buf@),
        ensures
            encode_utf8(s@) == self.buf@,
    {
        let v = slice_to_vec(self.buf);
        match string_from_utf8(v) {
            Some(s) => s,
            None => unreached(),
        }
    }
}

/// Relies on `String::from_utf8`: it succeeds exactly on valid UTF-8 input,
/// and the returned string's encoding is the input byte sequence unchanged.
#[verifier::external_body]
fn string_from_utf8(v: Vec<u8>) -> (r: Option<String>)
    ensures
        r is Some <==> valid_utf8(v@),
        r matches Some(s) ==> encode_utf8(s@) == v@,
{
    String::from_utf8(v).ok()
}

} // verus!
