//! Decoding borrowed C-string bytes into text values.

use vstd::prelude::*;
use vstd::slice::slice_to_vec;
use vstd::utf8::{decode_utf8, valid_utf8};

verus! {

/// Text decoded from a byte sequence under the strict UTF-8 rule: the decoded
/// characters when the bytes are valid UTF-8, absent otherwise.  An absent
/// input stays absent.
pub open spec fn spec_text(m: Option<Seq<u8>>) -> Option<Seq<char>> {
    match m {
        None => None,
        Some(b) => if valid_utf8(b) {
            Some(decode_utf8(b))
        } else {
            None
        },
    }
}

/// Relies on std::str::from_utf8: it returns `Ok` exactly when the bytes are
/// valid UTF-8, and the returned string borrows those bytes, so its view is
/// their decoding.
#[verifier::external_body]
pub(crate) fn utf8_text<'a>(bytes: &'a [u8]) -> (r: Option<&'a str>)
    ensures
        r is Some <==> valid_utf8(bytes@),
        r matches Some(s) ==> s@ == decode_utf8(bytes@),
{
    std::str::from_utf8(bytes).ok()
}

/// A platform-native text value: it keeps the raw bytes of the borrowed
/// C string even where they are not valid UTF-8, for OS-level identifiers
/// that must not be dropped on an encoding failure.
#[derive(Debug)]
pub struct PlatformString {
    bytes: Vec<u8>,
}

impl View for PlatformString {
    type V = Seq<u8>;

    closed spec fn view(&self) -> Seq<u8> {
        self.bytes@
    }
}

impl PlatformString {
    /// Wraps raw bytes as platform text.
    pub fn from_bytes(bytes: Vec<u8>) -> (r: PlatformString)
        ensures
            r@ == bytes@,
    {
        PlatformString { bytes }
    }

    /// The raw bytes, borrowed.
    pub fn as_bytes(&self) -> (r: &[u8])
        ensures
            r@ == self@,
    {
        self.bytes.as_slice()
    }

    /// The raw bytes, owned.
    pub fn into_bytes(self) -> (r: Vec<u8>)
        ensures
            r@ == self@,
    {
        self.bytes
    }

    /// A copy of the raw bytes.
    pub fn to_vec(&self) -> (r: Vec<u8>)
        ensures
            r@ == self@,
    {
        slice_to_vec(self.bytes.as_slice())
    }

    /// Number of raw bytes.
    pub fn len(&self) -> (r: usize)
        ensures
            r == self@.len(),
    {
        self.bytes.len()
    }
}

} // verus!
