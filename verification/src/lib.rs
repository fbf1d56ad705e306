//! Safety-gated views of C-style string references.
//!
//! A raw reference coming across a foreign-memory boundary may be null, may
//! designate a zero-terminated byte sequence, or may be a fixed-size buffer
//! with or without a terminator.  This crate models each of those shapes as a
//! plain value and offers one capability, [`cstr::CStringView`], to derive
//! string-like data from them: a borrowed view of the bytes before the first
//! zero, strict UTF-8 text, owned text, and a platform text value that keeps
//! raw bytes which are not valid UTF-8.  A null reference never yields a
//! value, and a buffer without a terminator fails closed.

pub mod cstr;
pub mod laws;
pub mod raw;
pub mod scan;
pub mod text;
