use imageflow_core::errors::{CodeLocation, ErrorCategory, ErrorKind};
use imageflow_core::flow_error::FlowError;
use imageflow_core::writing::NonAllocatingFormatter;

#[test]
fn test_write_cstr() {
    let a = NonAllocatingFormatter("hello");

    let mut large = [0u8; 100];

    assert!(a.write_and_write_errors_to_cstring_slice(&mut large, None).is_ok());
    assert_eq!(b"hello\0"[..], large[..6]);

    let mut small = [0u8; 5];

    let result = a.write_and_write_errors_to_cstring_slice(&mut small, None);
    assert_eq!(result.is_ok(), false);
    assert_eq!(result.bytes_written(), 4);
}

#[test]
fn test_err() {
    let at = CodeLocation::new("src/flow/nodes/mod.rs", 79, 13);
    let e = FlowError::new(ErrorKind::BitmapPointerNull).at(at);
    assert_eq!(e.kind, ErrorKind::BitmapPointerNull);
    assert!(e.to_display_string().starts_with("InternalError: BitmapPointerNull at"));
    let e = FlowError::with_message(ErrorKind::BitmapPointerNull, "hi").at(at);
    assert!(e.to_display_string().starts_with("InternalError: BitmapPointerNull: hi at"));
    let e = FlowError::with_message(ErrorKind::BitmapPointerNull, &format!("hi {}", 1)).at(at);
    assert!(e.to_display_string().starts_with("InternalError: BitmapPointerNull: hi 1 at"));
}

#[test]
fn test_flow_error_size() {
    println!("size_of(CodeLocation) = {}; ", std::mem::size_of::<CodeLocation>());
    println!("size_of(FlowError) = {} bytes;  ", std::mem::size_of::<FlowError>());
    assert!(std::mem::size_of::<FlowError>() < 90);
}

#[test]
fn category_codes_roundtrip() {
    let c = ErrorCategory::ArgumentInvalid;
    assert_eq!(ErrorCategory::from_c_error_code(c.to_c_error_code()), Some(c));
}

#[test]
fn codec_io_failures_are_io_errors_unless_the_input_was_invalid() {
    let e = FlowError::from_decoder(std::io::Error::new(std::io::ErrorKind::InvalidInput, "bad"));
    assert_eq!(e.kind, ErrorKind::InternalError);
    let e = FlowError::from_decoder(std::io::Error::new(std::io::ErrorKind::UnexpectedEof, "short"));
    assert_eq!(e.kind, ErrorKind::DecodingIoError);
    assert!(e.message.contains("short"));
    let e = FlowError::from_encoder(std::io::Error::new(std::io::ErrorKind::WriteZero, "full"));
    assert_eq!(e.kind, ErrorKind::EncodingIoError);
    let e = FlowError::from_encoder(std::io::Error::new(std::io::ErrorKind::InvalidInput, "bad"));
    assert_eq!(e.kind, ErrorKind::InternalError);
    let e = FlowError::from_io_failure(false, ErrorKind::DecodingIoError, "text".to_string());
    assert_eq!((e.kind, e.message.as_str()), (ErrorKind::DecodingIoError, "text"));
}

#[test]
fn out_of_memory_errors_record_no_location() {
    let at = CodeLocation::new("a.rs", 1, 2);
    let e = FlowError::new(ErrorKind::AllocationFailed).at(at);
    assert_eq!(e.kind, ErrorKind::AllocationFailed);
    assert_eq!(e.to_debug_string(), "AllocationFailed at\n");
    let e = FlowError::new(ErrorKind::InvalidArgument).at(at);
    assert_eq!(e.to_debug_string(), "InvalidArgument at\na.rs:1:2\n");
}
