use imageflow_core::errors::{ErrorCategory, ErrorKind};
use imageflow_core::flow_error::FlowError;
use imageflow_core::json_context::json_error_context;

#[test]
fn the_line_is_marked_at_the_column() {
    let json = b"{\n  \"a\": x\n}";
    assert_eq!(json_error_context(json, 2, 8).unwrap(), "  \"a\": >x");
    assert_eq!(json_error_context(json, 1, 1).unwrap(), ">{");
}

#[test]
fn a_column_past_the_line_leaves_it_unmarked() {
    let json = b"[1,\r\n2]";
    assert_eq!(json_error_context(json, 1, 9).unwrap(), "[1,");
    assert_eq!(json_error_context(json, 2, 0).unwrap(), "2]");
}

#[test]
fn missing_lines_are_noted() {
    assert_eq!(json_error_context(b"abc\n", 2, 1).unwrap(), "[input line not found]");
    assert_eq!(json_error_context(b"", 1, 1).unwrap(), "[input line not found]");
    assert_eq!(json_error_context(b"abc", 0, 1).unwrap(), "[input line not found]");
}

#[test]
fn a_column_inside_a_character_is_not_marked() {
    let json = "é1".as_bytes();
    assert_eq!(json_error_context(json, 1, 2).unwrap(), "é1");
    assert_eq!(json_error_context(json, 1, 3).unwrap(), "é>1");
}

#[test]
fn input_that_is_not_utf8_has_no_context() {
    assert!(json_error_context(&[0xFF, 0x0A], 1, 1).is_none());
}

#[test]
fn serde_errors_become_invalid_json_errors() {
    let json = b"{\n  \"a\": x\n}";
    let e = serde_json::from_slice::<serde_json::Value>(json).unwrap_err();
    let text = e.to_string();
    let f = FlowError::from_serde(e, json);
    assert_eq!(f.kind, ErrorKind::Category(ErrorCategory::InvalidJson));
    assert_eq!(f.message, format!("Json Error: {}: {}", text, "  \"a\": >x"));

    let bad = [0xFFu8, b'1'];
    let e = serde_json::from_slice::<serde_json::Value>(&bad).unwrap_err();
    let text = e.to_string();
    let f = FlowError::from_serde(e, &bad);
    assert_eq!(f.message, format!("InvalidJson: {}", text));
}
