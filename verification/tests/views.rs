use cstrview::cstr::CStringView;
use cstrview::raw::{CharBuffer, ConstCharPtr, MutCharPtr};
use cstrview::text::PlatformString;

#[test]
fn null_const_ptr_all_absent() {
    let p = ConstCharPtr::null();
    assert!(p.is_null());
    assert!(p.as_borrowed_cstring().is_none());
    assert!(p.as_text().is_none());
    assert!(p.as_owned_text().is_none());
    assert!(p.as_platform_text().is_none());
}

#[test]
fn null_mut_ptr_all_absent() {
    let p = MutCharPtr::null();
    assert!(p.is_null());
    assert!(p.as_borrowed_cstring().is_none());
    assert!(p.as_text().is_none());
    assert!(p.as_owned_text().is_none());
    assert!(p.as_platform_text().is_none());
}

#[test]
fn hello_as_text() {
    let p = ConstCharPtr::new(b"hello\0".to_vec());
    assert!(!p.is_null());
    assert_eq!(p.as_text(), Some("hello"));
    assert_eq!(p.as_owned_text(), Some(String::from("hello")));
    let c = p.as_borrowed_cstring().unwrap();
    assert_eq!(c.as_bytes(), b"hello".as_slice());
    assert_eq!(c.len(), 5);
}

#[test]
fn invalid_utf8_strict_absent() {
    // a lone continuation byte followed by the terminator
    let p = ConstCharPtr::new(vec![0x80, 0x00]);
    assert_eq!(p.as_text(), None);
    assert_eq!(p.as_owned_text(), None);
}

#[test]
fn invalid_utf8_platform_keeps_raw_bytes() {
    let p = ConstCharPtr::new(vec![0x80, 0xff, 0x00]);
    let platform = p.as_platform_text().unwrap();
    assert_eq!(platform.as_bytes(), [0x80u8, 0xffu8].as_slice());
    assert_eq!(platform.len(), 2);
    assert_eq!(platform.into_bytes(), vec![0x80u8, 0xffu8]);
}

#[test]
fn buffer_terminator_inside_bounds() {
    // length 5, zero at index 2: the view holds exactly the first 2 bytes
    let b = CharBuffer::from_bytes(vec![b'a', b'b', 0, b'x', b'y']);
    let c = b.as_borrowed_cstring().unwrap();
    assert_eq!(c.as_bytes(), b"ab".as_slice());
    assert_eq!(c.len(), 2);
    assert_eq!(b.as_text(), Some("ab"));
}

#[test]
fn buffer_without_terminator_absent() {
    let b = CharBuffer::from_bytes(vec![1, 2, 3]);
    assert_eq!(b.len(), 3);
    assert!(b.as_borrowed_cstring().is_none());
    assert!(b.as_text().is_none());
    assert!(b.as_owned_text().is_none());
    assert!(b.as_platform_text().is_none());
}

#[test]
fn buffer_terminator_at_last_cell() {
    let b = CharBuffer::from_bytes(vec![b'z', 0]);
    assert_eq!(b.as_text(), Some("z"));
}

#[test]
fn first_terminator_wins() {
    let p = ConstCharPtr::new(b"ab\0cd\0".to_vec());
    assert_eq!(p.as_text(), Some("ab"));
    let c = p.as_borrowed_cstring().unwrap();
    assert_eq!(c.as_bytes(), b"ab".as_slice());
}

#[test]
fn empty_cstring() {
    let p = ConstCharPtr::new(vec![0]);
    let c = p.as_borrowed_cstring().unwrap();
    assert_eq!(c.len(), 0);
    assert_eq!(p.as_text(), Some(""));
    assert_eq!(p.as_owned_text(), Some(String::new()));
    assert_eq!(p.as_platform_text().unwrap().len(), 0);
}

#[test]
fn mut_ptr_reads_like_const() {
    let m = MutCharPtr::new(b"hi\0".to_vec());
    let p = ConstCharPtr::new(b"hi\0".to_vec());
    assert_eq!(m.as_text(), p.as_text());
    assert_eq!(m.as_owned_text(), Some(String::from("hi")));
}

#[test]
fn multibyte_utf8_decodes() {
    // "héllo" in UTF-8: the accented letter takes two bytes
    let p = ConstCharPtr::new(vec![b'h', 0xc3, 0xa9, b'l', b'l', b'o', 0]);
    assert_eq!(p.as_text(), Some("h\u{e9}llo"));
    assert_eq!(p.as_owned_text(), Some(String::from("h\u{e9}llo")));
}

#[test]
fn accessors_idempotent() {
    let p = ConstCharPtr::new(b"same\0".to_vec());
    assert_eq!(p.as_text(), p.as_text());
    assert_eq!(p.as_owned_text(), p.as_owned_text());
    assert_eq!(
        p.as_platform_text().unwrap().as_bytes(),
        p.as_platform_text().unwrap().as_bytes()
    );
    assert_eq!(
        p.as_borrowed_cstring().unwrap().as_bytes(),
        p.as_borrowed_cstring().unwrap().as_bytes()
    );
    let invalid = CharBuffer::from_bytes(vec![0xfe, 0]);
    assert_eq!(invalid.as_text(), invalid.as_text());
}

#[test]
fn ascii_round_trip() {
    let original = b"abc DEF 123!\0".to_vec();
    let p = ConstCharPtr::new(original.clone());
    let owned = p.as_owned_text().unwrap();
    let mut reencoded = owned.into_bytes();
    reencoded.push(0);
    assert_eq!(reencoded, original);
}

#[test]
fn platform_string_round_trips() {
    let raw = vec![0x00u8, 0x80u8, b'a'];
    let p = PlatformString::from_bytes(raw.clone());
    assert_eq!(p.as_bytes(), raw.as_slice());
    assert_eq!(p.to_vec(), raw);
    assert_eq!(p.len(), 3);
    assert_eq!(p.into_bytes(), raw);
}
