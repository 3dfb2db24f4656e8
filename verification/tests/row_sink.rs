use imageflow_core::codecs::zen_decoder::{BitmapRowSink, SinkRefusal, StripBuffer};

#[test]
fn four_byte_strips_go_straight_into_the_bitmap() {
    let mut data = [0u8; 32];
    let mut sink = BitmapRowSink::new(16);
    sink.begin(3, 2, true, 4, false).unwrap();
    assert_eq!(sink.provide_next_buffer(&mut data, 0, 2, 3, 4, 4), Ok(StripBuffer::Bitmap { start: 0, len: 28 }));
    assert_eq!(sink.provide_next_buffer(&mut data, 1, 1, 3, 4, 4), Ok(StripBuffer::Bitmap { start: 16, len: 12 }));
    assert_eq!(
        sink.provide_next_buffer(&mut data, 1, 2, 3, 4, 4),
        Err(SinkRefusal::StripOutside { y: 1, height: 2, width: 3, bitmap_width: 3, bitmap_height: 2 })
    );
    assert_eq!(
        sink.provide_next_buffer(&mut data, 0, 1, 4, 4, 4),
        Err(SinkRefusal::StripOutside { y: 0, height: 1, width: 4, bitmap_width: 3, bitmap_height: 2 })
    );
    sink.finish(&mut data).unwrap();
    assert_eq!(data, [0u8; 32]);
}

#[test]
fn strips_beyond_the_buffer_are_refused() {
    let mut data = [0u8; 12];
    let mut sink = BitmapRowSink::new(8);
    sink.begin(2, 2, true, 4, false).unwrap();
    assert_eq!(
        sink.provide_next_buffer(&mut data, 0, 2, 2, 4, 4),
        Err(SinkRefusal::StripTooLong { y: 0, needed: 16, available: 12 })
    );
}

#[test]
fn rgba_frames_are_swizzled_at_the_end() {
    let mut data = [0u8; 12];
    let mut sink = BitmapRowSink::new(6);
    sink.begin(1, 2, true, 4, true).unwrap();
    match sink.provide_next_buffer(&mut data, 0, 2, 1, 4, 4).unwrap() {
        StripBuffer::Bitmap { start, len } => {
            assert_eq!((start, len), (0, 10));
            data[0..4].copy_from_slice(&[1, 2, 3, 4]);
            data[6..10].copy_from_slice(&[5, 6, 7, 8]);
        }
        other => panic!("unexpected {:?}", other),
    }
    sink.finish(&mut data).unwrap();
    assert_eq!(data, [3, 2, 1, 4, 0, 0, 7, 6, 5, 8, 0, 0]);
}

#[test]
fn other_strips_are_converted_when_the_next_arrives() {
    let mut data = [0u8; 16];
    let mut sink = BitmapRowSink::new(8);
    sink.begin(2, 2, true, 3, false).unwrap();
    assert_eq!(sink.provide_next_buffer(&mut data, 0, 1, 2, 3, 3), Ok(StripBuffer::Temp { len: 6, stride: 6 }));
    sink.temp_mut().copy_from_slice(&[10, 20, 30, 40, 50, 60]);
    assert_eq!(data, [0u8; 16]);
    assert_eq!(sink.provide_next_buffer(&mut data, 1, 1, 2, 3, 3), Ok(StripBuffer::Temp { len: 6, stride: 6 }));
    assert_eq!(&data[..8], &[30, 20, 10, 255, 60, 50, 40, 255]);
    sink.temp_mut().copy_from_slice(&[1, 2, 3, 4, 5, 6]);
    sink.finish(&mut data).unwrap();
    assert_eq!(&data[8..], &[3, 2, 1, 255, 6, 5, 4, 255]);
}

#[test]
fn only_eight_bit_channels_are_accepted() {
    let mut sink = BitmapRowSink::new(8);
    assert_eq!(sink.begin(2, 2, false, 6, false), Err(SinkRefusal::NotU8));
}
