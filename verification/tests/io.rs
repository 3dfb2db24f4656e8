use imageflow_core::error::FlowError;
use imageflow_core::io::IoStore;
use std::sync::Arc;

#[test]
fn input_reads_back_its_bytes() {
    let mut store = IoStore::new();
    store.add_input(3, Arc::from(vec![1u8, 2, 3]));
    assert_eq!(store.get_input(3).unwrap(), &[1u8, 2, 3][..]);
}

#[test]
fn written_output_reads_back_and_other_buffers_are_untouched() {
    let mut store = IoStore::new();
    store.add_input(0, Arc::from(vec![9u8]));
    store.add_output(1);
    store.add_output(2);
    store.write_output(1, vec![7, 8]).unwrap();
    assert_eq!(store.get_output(1).unwrap(), &[7u8, 8][..]);
    assert!(store.get_output(2).unwrap().is_empty());
    assert_eq!(store.get_input(0).unwrap(), &[9u8][..]);
}

#[test]
fn taking_an_output_leaves_it_empty() {
    let mut store = IoStore::new();
    store.add_output(5);
    store.write_output(5, vec![4, 5, 6]).unwrap();
    assert_eq!(store.take_output(5).unwrap(), vec![4, 5, 6]);
    assert!(store.take_output(5).unwrap().is_empty());
    assert!(store.get_output(5).unwrap().is_empty());
}

#[test]
fn unknown_ids_are_not_found() {
    let mut store = IoStore::new();
    match store.get_input(42) {
        Err(FlowError::IoNotFound(42)) => {}
        _ => panic!("expected IoNotFound"),
    }
    match store.take_output(-7) {
        Err(e) => {
            assert_eq!(e.http_status(), 404);
            assert_eq!(e.to_display_string(), "I/O object not found: -7");
        }
        Ok(_) => panic!("expected an error"),
    }
}

#[test]
fn buffers_of_the_wrong_kind_are_refused() {
    let mut store = IoStore::new();
    store.add_input(1, Arc::from(vec![1u8]));
    store.add_output(2);
    match store.get_output(1) {
        Err(FlowError::InvalidPipeline(msg)) => assert_eq!(msg, "io_id 1 is not an output"),
        _ => panic!("expected InvalidPipeline"),
    }
    match store.get_input(2) {
        Err(FlowError::InvalidPipeline(msg)) => assert_eq!(msg, "io_id 2 is not an input"),
        _ => panic!("expected InvalidPipeline"),
    }
    let e = store.write_output(1, vec![0]).unwrap_err();
    assert_eq!(e.http_status(), 400);
    assert_eq!(e.to_display_string(), "invalid pipeline: io_id 1 is not an output");
    assert_eq!(store.get_input(1).unwrap(), &[1u8][..]);
}

#[test]
fn adding_an_id_again_replaces_the_buffer() {
    let mut store = IoStore::new();
    store.add_output(1);
    store.add_input(1, Arc::from(vec![5u8]));
    assert_eq!(store.get_input(1).unwrap(), &[5u8][..]);
    assert!(store.get_output(1).is_err());
}

#[test]
fn http_status_of_each_error() {
    assert_eq!(FlowError::InvalidPipeline(String::new()).http_status(), 400);
    assert_eq!(FlowError::IoNotFound(1).http_status(), 404);
    assert_eq!(FlowError::LimitExceeded("x".to_string()).http_status(), 413);
    assert_eq!(FlowError::Cancelled.http_status(), 503);
    assert_eq!(FlowError::Codec("x".to_string()).http_status(), 500);
    assert_eq!(FlowError::Internal("x".to_string()).http_status(), 500);
    let json = serde_json::from_str::<u32>("nope").unwrap_err();
    let e = FlowError::from(json);
    assert_eq!(e.http_status(), 400);
    assert!(e.to_display_string().starts_with("invalid JSON: "));
}

#[test]
fn display_text_of_each_error() {
    assert_eq!(FlowError::Codec("bad".to_string()).to_display_string(), "codec error: bad");
    assert_eq!(FlowError::Layout("l".to_string()).to_display_string(), "layout error: l");
    assert_eq!(FlowError::Resize("r".to_string()).to_display_string(), "resize error: r");
    assert_eq!(FlowError::ColorManagement("c".to_string()).to_display_string(), "color management error: c");
    assert_eq!(FlowError::LimitExceeded("big".to_string()).to_display_string(), "limit exceeded: big");
    assert_eq!(FlowError::Cancelled.to_display_string(), "operation cancelled");
    assert_eq!(FlowError::Internal("i".to_string()).to_display_string(), "internal error: i");
}
