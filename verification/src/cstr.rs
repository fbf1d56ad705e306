//! The borrowed C-string view and the capability to derive it.

use vstd::prelude::*;
use vstd::slice::slice_to_vec;
use crate::scan::{contains_nul, first_nul};
use crate::text::{spec_text, utf8_text, PlatformString};

verus! {

/// The borrowed C string a raw reference designates: the referenced bytes
/// before the first zero, absent for a null reference and absent when no
/// zero byte exists among the referenced bytes.
pub open spec fn spec_cstring(m: Option<Seq<u8>>) -> Option<Seq<u8>> {
    match m {
        None => None,
        Some(b) => if contains_nul(b) {
            Some(b.take(first_nul(b)))
        } else {
            None
        },
    }
}

/// A borrowed view over the bytes of a C string up to, and not including,
/// its zero terminator.  It never holds a zero byte, and stays valid only
/// as long as the reference it was derived from; the underlying memory is
/// never owned here.
pub struct BorrowedCString<'a> {
    bytes: &'a [u8],
}

impl<'a> View for BorrowedCString<'a> {
    type V = Seq<u8>;

    closed spec fn view(&self) -> Seq<u8> {
        self.bytes@
    }
}

impl<'a> BorrowedCString<'a> {
    /// Wraps bytes that hold no zero byte, the content of a C string.
    pub fn new(bytes: &'a [u8]) -> (r: BorrowedCString<'a>)
        requires
            !contains_nul(bytes@),
        ensures
            r@ == bytes@,
    {
        BorrowedCString { bytes }
    }

    /// The bytes before the terminator.
    pub fn as_bytes(&self) -> (r: &'a [u8])
        ensures
            r@ == self@,
    {
        self.bytes
    }

    /// Number of bytes before the terminator.
    pub fn len(&self) -> (r: usize)
        ensures
            r == self@.len(),
    {
        self.bytes.len()
    }
}

/// Something that can be a reference to a C string.  Each implementing shape
/// defines one required primitive, `as_borrowed_cstring`; the text accessors
/// are layered on it.  Null references and buffers without a terminator
/// uniformly yield an absent result, never a read past the known bytes.
pub trait CStringView {
    /// Model of the reference: the raw memory bytes it designates, absent
    /// for a null reference.
    spec fn referenced(&self) -> Option<Seq<u8>>;

    /// The caller-side precondition under which the reference may be read.
    /// A pointer shape that designates memory demands a zero terminator
    /// among the designated bytes; a bounded buffer demands nothing.
    spec fn readable(&self) -> bool;

    /// The required primitive: the borrowed view of the bytes before the
    /// first zero, or absent.
    fn as_borrowed_cstring<'a>(&'a self) -> (r: Option<BorrowedCString<'a>>)
        requires
            self.readable(),
        ensures
            match r {
                Some(c) => spec_cstring(self.referenced()) == Some(c@),
                None => spec_cstring(self.referenced()) is None,
            },
    ;

    /// Strict text: the borrowed view decoded as UTF-8, absent when the
    /// reference yields no view or the bytes are not valid UTF-8.
    fn as_text<'a>(&'a self) -> (r: Option<&'a str>)
        requires
            self.readable(),
        ensures
            match r {
                Some(s) => spec_text(spec_cstring(self.referenced())) == Some(s@),
                None => spec_text(spec_cstring(self.referenced())) is None,
            },
    {
        match self.as_borrowed_cstring() {
            None => None,
            Some(c) => utf8_text(c.as_bytes()),
        }
    }

    /// Strict text copied into an owned value, decoupled from the
    /// reference's lifetime; absent exactly when `as_text` is absent.
    fn as_owned_text(&self) -> (r: Option<String>)
        requires
            self.readable(),
        ensures
            match r {
                Some(s) => spec_text(spec_cstring(self.referenced())) == Some(s@),
                None => spec_text(spec_cstring(self.referenced())) is None,
            },
    {
        match self.as_text() {
            None => None,
            Some(s) => Some(s.to_owned()),
        }
    }

    /// Platform text: an owned copy of the borrowed view's raw bytes, kept
    /// even where they are not valid UTF-8; absent exactly when the
    /// borrowed view is absent.
    fn as_platform_text(&self) -> (r: Option<PlatformString>)
        requires
            self.readable(),
        ensures
            match r {
                Some(p) => spec_cstring(self.referenced()) == Some(p@),
                None => spec_cstring(self.referenced()) is None,
            },
    {
        match self.as_borrowed_cstring() {
            None => None,
            Some(c) => Some(PlatformString::from_bytes(slice_to_vec(c.as_bytes()))),
        }
    }
}

} // verus!
