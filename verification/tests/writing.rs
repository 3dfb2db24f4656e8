use imageflow_core::writing::{NonAllocatingCursor, NonAllocatingFormatter, WriteResult};

#[test]
fn cursor_writes_what_fits() {
    let mut buf = [0u8; 4];
    let mut c = NonAllocatingCursor::new(&buf);
    assert_eq!(c.write(&mut buf, b"ab"), 2);
    assert_eq!(c.position(), 2);
    assert!(c.write_all(&mut buf, b"cde").is_err());
    assert_eq!(&buf, b"abcd");
    assert_eq!(c.position(), 4);
    assert_eq!(c.write(&mut buf, b"z"), 0);
    assert_eq!(c.position(), 4);
}

#[test]
fn write_to_slice_reports_truncation() {
    let f = NonAllocatingFormatter("hello");
    let mut big = [9u8; 8];
    let r = f.write_to_slice(&mut big);
    assert!(r.is_ok());
    assert_eq!(r.bytes_written(), 5);
    assert_eq!(&big, b"hello\x09\x09\x09");
    let mut small = [0u8; 3];
    let r = f.write_to_slice(&mut small);
    assert!(matches!(r, WriteResult::TruncatedAt(3)));
    assert_eq!(&small, b"hel");
}

#[test]
fn truncated_text_is_followed_by_the_appended_text() {
    let f = NonAllocatingFormatter("abcdefgh");
    let mut buf = [0u8; 6];
    let r = f.write_and_write_errors_to_slice(&mut buf, Some(".."));
    assert!(matches!(r, WriteResult::TruncatedAt(2)));
    assert_eq!(&buf, b"abcd..");
    let mut fits = [0u8; 10];
    let r = f.write_and_write_errors_to_slice(&mut fits, Some(".."));
    assert!(matches!(r, WriteResult::AllWritten(8)));
    assert_eq!(&fits[..8], b"abcdefgh");
    let mut tiny = [7u8; 2];
    let r = f.write_and_write_errors_to_slice(&mut tiny, Some(".."));
    assert!(matches!(r, WriteResult::TruncatedAt(0)));
    assert_eq!(tiny, [7u8, 7]);
}

#[test]
fn cstring_replaces_zeros_and_terminates() {
    let f = NonAllocatingFormatter("a\0b");
    let mut buf = [1u8; 6];
    let r = f.write_and_write_errors_to_cstring_slice(&mut buf, None);
    assert!(r.is_ok());
    assert_eq!(&buf[..4], b"a b\0");
    assert_eq!(buf[4], 1);
    let mut one = [5u8; 1];
    let r = f.write_and_write_errors_to_cstring_slice(&mut one, None);
    assert_eq!(r.bytes_written(), 0);
    assert_eq!(one, [5u8]);
}

#[test]
fn write_result_from_io_outcome() {
    assert!(matches!(WriteResult::from(3, Ok(())), WriteResult::AllWritten(3)));
    let full = std::io::Error::new(std::io::ErrorKind::WriteZero, "full");
    assert!(matches!(WriteResult::from(4, Err(full)), WriteResult::TruncatedAt(4)));
    let other = std::io::Error::new(std::io::ErrorKind::Other, "x");
    let r = WriteResult::from(1, Err(other));
    assert!(matches!(r, WriteResult::Error { bytes_written: 1, .. }));
    assert!(!r.is_ok());
    assert_eq!(r.bytes_written(), 1);
}

#[test]
fn io_failures_are_sorted_by_kind() {
    let r = WriteResult::classify(4, true, std::io::Error::new(std::io::ErrorKind::WriteZero, "full"));
    assert!(matches!(r, WriteResult::TruncatedAt(4)));
    let r = WriteResult::classify(4, false, std::io::Error::new(std::io::ErrorKind::Other, "bad"));
    assert!(matches!(r, WriteResult::Error { bytes_written: 4, .. }));
    let r = WriteResult::from(2, Err(std::io::Error::new(std::io::ErrorKind::WriteZero, "full")));
    assert!(matches!(r, WriteResult::TruncatedAt(2)));
    let r = WriteResult::from(2, Err(std::io::Error::new(std::io::ErrorKind::Other, "bad")));
    assert!(matches!(r, WriteResult::Error { bytes_written: 2, .. }));
}

#[test]
fn the_cursor_stands_at_the_total_written_or_the_end() {
    let mut buf = [0u8; 10];
    let mut c = NonAllocatingCursor::new(&buf);
    assert_eq!(c.position(), 0);
    let _ = c.write_all(&mut buf, b"abc");
    let _ = c.write_all(&mut buf, b"de");
    assert_eq!(c.position(), 5);
    let _ = c.write_all(&mut buf, b"fghijkl");
    assert_eq!(c.position(), 10);
    let _ = c.write_all(&mut buf, b"m");
    assert_eq!(c.position(), 10);
    assert_eq!(&buf, b"abcdefghij");
}
