//! The raw reference shapes that can designate a C string.
//!
//! Each shape is a plain-value model of a reference coming across the
//! foreign-memory boundary: the bytes it designates, or nothing for a null
//! pointer.  The boundary code that reads actual foreign memory builds these
//! values; everything derived from them is verified here.

use vstd::prelude::*;
use vstd::slice::slice_subrange;
use crate::cstr::{BorrowedCString, CStringView, spec_cstring};
use crate::scan::{contains_nul, find_nul, first_nul, lemma_first_nul};

verus! {

/// A constant pointer to C characters: null, or designating the given bytes.
///
/// Reading through it demands, as the foreign caller must guarantee, that
/// the designated bytes hold a zero terminator; the derived view covers the
/// bytes before the first zero.
pub struct ConstCharPtr {
    mem: Option<Vec<u8>>,
}

/// A mutable pointer to C characters, read exactly as the constant shape is;
/// nothing here writes through it.
pub struct MutCharPtr {
    mem: Option<Vec<u8>>,
}

/// A fixed-size buffer of C characters, its cells taken as raw bytes.  A
/// terminator may or may not exist within its bounds; when none does, the
/// derived view is absent rather than read past the end.
pub struct CharBuffer {
    cells: Vec<u8>,
}

impl ConstCharPtr {
    /// The null pointer.
    pub fn null() -> (r: ConstCharPtr)
        ensures
            r.referenced() is None,
    {
        ConstCharPtr { mem: None }
    }

    /// A non-null pointer designating `mem`.
    pub fn new(mem: Vec<u8>) -> (r: ConstCharPtr)
        ensures
            r.referenced() == Some(mem@),
    {
        ConstCharPtr { mem: Some(mem) }
    }

    /// True exactly for the null pointer.
    pub fn is_null(&self) -> (r: bool)
        ensures
            r == (self.referenced() is None),
    {
        self.mem.is_none()
    }
}

impl MutCharPtr {
    /// The null pointer.
    pub fn null() -> (r: MutCharPtr)
        ensures
            r.referenced() is None,
    {
        MutCharPtr { mem: None }
    }

    /// A non-null pointer designating `mem`.
    pub fn new(mem: Vec<u8>) -> (r: MutCharPtr)
        ensures
            r.referenced() == Some(mem@),
    {
        MutCharPtr { mem: Some(mem) }
    }

    /// True exactly for the null pointer.
    pub fn is_null(&self) -> (r: bool)
        ensures
            r == (self.referenced() is None),
    {
        self.mem.is_none()
    }
}

impl CharBuffer {
    /// A buffer holding the given cells.
    pub fn from_bytes(cells: Vec<u8>) -> (r: CharBuffer)
        ensures
            r.referenced() == Some(cells@),
    {
        CharBuffer { cells }
    }

    /// The buffer's size in cells.
    pub fn len(&self) -> (r: usize)
        ensures
            self.referenced() matches Some(m) && r == m.len(),
    {
        self.cells.len()
    }
}

/// Scans `bytes` for its first zero and wraps the bytes before it; used by
/// every shape that designates memory.
fn borrowed_prefix<'a>(bytes: &'a [u8]) -> (r: Option<BorrowedCString<'a>>)
    ensures
        match r {
            Some(c) => spec_cstring(Some(bytes@)) == Some(c@),
            None => spec_cstring(Some(bytes@)) is None,
        },
{
    match find_nul(bytes) {
        None => None,
        Some(i) => {
            proof {
                lemma_first_nul(bytes@);
                assert(bytes@.subrange(0, i as int) =~= bytes@.take(first_nul(bytes@)));
                assert(!contains_nul(bytes@.subrange(0, i as int)));
            }
            Some(BorrowedCString::new(slice_subrange(bytes, 0, i)))
        },
    }
}

impl CStringView for ConstCharPtr {
    closed spec fn referenced(&self) -> Option<Seq<u8>> {
        match self.mem {
            None => None,
            Some(v) => Some(v@),
        }
    }

    open spec fn readable(&self) -> bool {
        match self.referenced() {
            None => true,
            Some(m) => contains_nul(m),
        }
    }

    fn as_borrowed_cstring<'a>(&'a self) -> (r: Option<BorrowedCString<'a>>) {
        match &self.mem {
            None => None,
            Some(v) => borrowed_prefix(v.as_slice()),
        }
    }
}

impl CStringView for MutCharPtr {
    closed spec fn referenced(&self) -> Option<Seq<u8>> {
        match self.mem {
            None => None,
            Some(v) => Some(v@),
        }
    }

    open spec fn readable(&self) -> bool {
        match self.referenced() {
            None => true,
            Some(m) => contains_nul(m),
        }
    }

    fn as_borrowed_cstring<'a>(&'a self) -> (r: Option<BorrowedCString<'a>>) {
        match &self.mem {
            None => None,
            Some(v) => borrowed_prefix(v.as_slice()),
        }
    }
}

impl CStringView for CharBuffer {
    closed spec fn referenced(&self) -> Option<Seq<u8>> {
        Some(self.cells@)
    }

    open spec fn readable(&self) -> bool {
        true
    }

    fn as_borrowed_cstring<'a>(&'a self) -> (r: Option<BorrowedCString<'a>>) {
        borrowed_prefix(self.cells.as_slice())
    }
}

} // verus!
