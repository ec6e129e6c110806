//! The ownership adapter, exercised on concrete buffers.

use rl_sys::foreign::collect_null_terminated_array;
use rl_sys::foreign::from_foreign_owned;
use rl_sys::foreign::to_foreign;
use rl_sys::ErrorKind;

#[test]
fn test_to_foreign_appends_terminator() {
    let c = to_foreign("hello").unwrap();
    assert_eq!(c.as_bytes_with_nul(), b"hello\0");
}

#[test]
fn test_to_foreign_rejects_interior_nul() {
    let r = to_foreign("ab\0cd");
    let e = r.unwrap_err();
    assert_eq!(e.kind, ErrorKind::NulByteInString);
}

#[test]
fn test_to_foreign_rejects_trailing_nul() {
    let r = to_foreign("abc\0");
    assert_eq!(r.unwrap_err().kind, ErrorKind::NulByteInString);
}

#[test]
fn test_round_trip_through_foreign_buffer() {
    let c = to_foreign("ls -al").unwrap();
    let buf = c.into_bytes();
    let s = from_foreign_owned(Some(buf), "unused").unwrap();
    assert_eq!(s, "ls -al");
}

#[test]
fn test_from_foreign_owned_null_pointer() {
    let r = from_foreign_owned(None, "null pointer from a native call");
    let e = r.unwrap_err();
    assert_eq!(e.kind, ErrorKind::NullPointer);
    assert_eq!(e.detail, "null pointer from a native call");
}

#[test]
fn test_from_foreign_owned_stops_at_terminator() {
    let s = from_foreign_owned(Some(b"abc\0def".to_vec()), "unused").unwrap();
    assert_eq!(s, "abc");
}

#[test]
fn test_from_foreign_owned_lossy_decoding() {
    let s = from_foreign_owned(Some(vec![0xff, 0xfe, 0]), "unused").unwrap();
    assert_eq!(s, "\u{fffd}\u{fffd}");
}

#[test]
fn test_collect_stops_at_null_entry() {
    let arr = vec![
        Some("one".to_string()),
        Some("two".to_string()),
        None,
        Some("three".to_string()),
    ];
    let v = collect_null_terminated_array(Some(arr)).unwrap();
    assert_eq!(v, vec!["one".to_string(), "two".to_string()]);
}

#[test]
fn test_collect_null_outer_pointer() {
    let r = collect_null_terminated_array(None);
    assert_eq!(r.unwrap_err().kind, ErrorKind::NullPointer);
}

#[test]
fn test_collect_without_terminator() {
    let arr = vec![Some("a".to_string()), Some("b".to_string())];
    let v = collect_null_terminated_array(Some(arr)).unwrap();
    assert_eq!(v.len(), 2);
}

#[test]
fn test_error_message_shape() {
    let e = rl_sys::ReadlineError::new(ErrorKind::NullPointer, "something was null");
    assert_eq!(e.message(), "Null Pointer: something was null");
    let h = rl_sys::HistoryError::new(ErrorKind::InvalidUtf8, "bad bytes");
    assert_eq!(h.message(), "Invalid UTF-8: bad bytes");
}
