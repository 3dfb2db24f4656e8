use imageflow_core::codecs::frame_pixels::{bitmap_bgra_pixels, bitmap_rgba_pixels, pack_rows, write_rgba_pixels, Rgba8};
use imageflow_core::codecs::gif_state::{
    gif_dimensions_within, gif_frame_delay, gif_image_info, gif_memory_limits, GifStep, ZenGifDecoderState,
};
use imageflow_core::codecs::decoder_state::{DecoderCommand, FramePeek};
use imageflow_core::errors::ErrorKind;
use imageflow_core::graphics::bitmaps::{Bgra8, Bitmap, BitmapCompositing, Color32, ColorSpace, PixelFormat, PixelLayout};

fn bitmap(w: u32, h: u32, alpha_meaningful: bool) -> Bitmap {
    Bitmap::create_u8(w, h, PixelLayout::BGRA, false, alpha_meaningful, ColorSpace::StandardRGB, BitmapCompositing::ReplaceSelf)
        .unwrap()
}

fn two_by_two(alpha_meaningful: bool) -> Bitmap {
    let mut b = bitmap(2, 2, alpha_meaningful);
    b.fill_rectangle(Color32(0x80112233), 0, 0, 1, 1).unwrap();
    b.fill_rectangle(Color32(0x40445566), 1, 0, 2, 1).unwrap();
    b.fill_rectangle(Color32(0x20778899), 0, 1, 1, 2).unwrap();
    b.fill_rectangle(Color32(0x10AABBCC), 1, 1, 2, 2).unwrap();
    b
}

#[test]
fn bgra_pixels_come_row_after_row() {
    let b = two_by_two(true);
    let v = bitmap_bgra_pixels(&b).unwrap();
    assert_eq!(v, vec![
        Bgra8 { b: 0x33, g: 0x22, r: 0x11, a: 0x80 },
        Bgra8 { b: 0x66, g: 0x55, r: 0x44, a: 0x40 },
        Bgra8 { b: 0x99, g: 0x88, r: 0x77, a: 0x20 },
        Bgra8 { b: 0xCC, g: 0xBB, r: 0xAA, a: 0x10 },
    ]);
}

#[test]
fn alpha_is_opaque_where_it_is_not_meaningful() {
    let b = two_by_two(false);
    let v = bitmap_rgba_pixels(&b).unwrap();
    assert_eq!(v[0], Rgba8 { r: 0x11, g: 0x22, b: 0x33, a: 255 });
    assert_eq!(v[3], Rgba8 { r: 0xAA, g: 0xBB, b: 0xCC, a: 255 });
    assert_eq!(v.len(), 4);
}

#[test]
fn gray_bitmaps_have_no_color_pixels() {
    let g = Bitmap::create_u8(2, 2, PixelLayout::Gray, false, false, ColorSpace::StandardRGB, BitmapCompositing::ReplaceSelf).unwrap();
    assert_eq!(bitmap_bgra_pixels(&g).unwrap_err().kind, ErrorKind::InvalidArgument);
    assert_eq!(bitmap_rgba_pixels(&g).unwrap_err().kind, ErrorKind::InvalidArgument);
}

#[test]
fn packed_rows_drop_the_padding() {
    let b = two_by_two(true);
    let packed = pack_rows(&b);
    assert_eq!(packed, vec![0x33, 0x22, 0x11, 0x80, 0x66, 0x55, 0x44, 0x40, 0x99, 0x88, 0x77, 0x20, 0xCC, 0xBB, 0xAA, 0x10]);
    let bgr = Bitmap::create_u8(3, 2, PixelLayout::BGR, false, false, ColorSpace::StandardRGB, BitmapCompositing::ReplaceSelf).unwrap();
    assert_eq!(pack_rows(&bgr).len(), 18);
}

#[test]
fn rgba_pixels_are_written_as_bgra() {
    let mut b = bitmap(2, 1, true);
    write_rgba_pixels(&mut b, &[Rgba8 { r: 1, g: 2, b: 3, a: 4 }, Rgba8 { r: 5, g: 6, b: 7, a: 8 }]);
    assert_eq!(b.get_pixel_bgra8(0, 0).unwrap(), Bgra8 { b: 3, g: 2, r: 1, a: 4 });
    assert_eq!(b.get_pixel_bgra8(1, 0).unwrap(), Bgra8 { b: 7, g: 6, r: 5, a: 8 });
    let back = bitmap_rgba_pixels(&b).unwrap();
    assert_eq!(back, vec![Rgba8 { r: 1, g: 2, b: 3, a: 4 }, Rgba8 { r: 5, g: 6, b: 7, a: 8 }]);
}

#[test]
fn gif_frames_are_skipped_to_reach_the_selected_one() {
    let mut s = ZenGifDecoderState::new();
    s.tell_decoder(DecoderCommand::DiscardColorProfile);
    assert_eq!(s.target_frame, None);
    s.tell_decoder(DecoderCommand::SelectFrame(2));
    assert_eq!(s.next_step(), GifStep::SkipFrame);
    s.frame_skipped(true).unwrap();
    assert_eq!(s.next_step(), GifStep::SkipFrame);
    s.frame_skipped(true).unwrap();
    assert_eq!(s.next_step(), GifStep::ReadFrame);
    s.frame_read(Some(5)).unwrap();
    assert_eq!(s.current_frame, 3);
    assert_eq!(s.last_frame_delay(), Some(5));
    assert!(!s.should_peek());
    s.after_frame(FramePeek::Frame);
    assert!(!s.has_more_frames());
}

#[test]
fn gif_errors_when_frames_run_out() {
    let mut s = ZenGifDecoderState::new();
    s.tell_decoder(DecoderCommand::SelectFrame(4));
    assert_eq!(s.frame_skipped(false).unwrap_err().kind, ErrorKind::InvalidArgument);
    assert_eq!(s.current_frame, 0);
    let mut t = ZenGifDecoderState::new();
    assert_eq!(t.frame_read(None).unwrap_err().kind, ErrorKind::InvalidOperation);
}

#[test]
fn gif_looks_ahead_for_more_frames() {
    let mut s = ZenGifDecoderState::new();
    assert!(s.has_more_frames());
    assert_eq!(s.next_step(), GifStep::ReadFrame);
    s.frame_read(Some(10)).unwrap();
    assert!(s.should_peek());
    s.after_frame(FramePeek::Frame);
    assert!(s.has_more_frames());
    s.frame_read(Some(10)).unwrap();
    s.after_frame(FramePeek::End);
    assert!(!s.has_more_frames());
}

#[test]
fn gif_info_limits_and_delays() {
    assert_eq!(gif_image_info(10, 20, 3), (PixelFormat::Bgra32, 10, 20, true));
    assert_eq!(gif_image_info(10, 20, 1), (PixelFormat::Bgra32, 10, 20, false));
    assert!(gif_dimensions_within(100, 50, 100, 50).is_ok());
    assert_eq!(gif_dimensions_within(101, 50, 100, 50).unwrap_err().kind, ErrorKind::SizeLimitExceeded);
    assert_eq!(gif_dimensions_within(100, 51, 100, 50).unwrap_err().kind, ErrorKind::SizeLimitExceeded);
    // A limit beyond i32 reads as negative, and refuses every canvas.
    assert_eq!(gif_dimensions_within(1, 1, 0x8000_0000, 50).unwrap_err().kind, ErrorKind::SizeLimitExceeded);
    assert_eq!(gif_memory_limits(None), (268_435_456, 67_108_864));
    assert_eq!(gif_memory_limits(Some(4_000_000)), (4_000_000, 1_000_000));
    assert_eq!(gif_frame_delay(None), 10);
    assert_eq!(gif_frame_delay(Some(3)), 3);
}
