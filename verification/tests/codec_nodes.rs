use imageflow_core::context::FrameSizeBounds;
use imageflow_core::errors::ErrorKind;
use imageflow_core::flow::codec_nodes::{
    validate_frame_dimensions, BitmapBgraDef, DecoderDef, DecoderPrimitiveDef, EncoderDef,
    PointerFrameSource, RoundImageCornersMut,
};
use imageflow_core::flow::definitions::{FrameEstimate, FrameInfo};
use imageflow_core::flow::engine::{EdgesIn, EdgesOut};
use imageflow_core::graphics::bitmaps::{Bitmap, BitmapCompositing, ColorSpace, PixelFormat, PixelLayout};

fn frame(w: i32, h: i32) -> FrameInfo {
    FrameInfo { w, h, fmt: PixelFormat::Bgra32 }
}

#[test]
fn frame_dimensions_within_limits_pass_the_frame_on() {
    let limit = Some(FrameSizeBounds { w: 800, h: 600 });
    let r = validate_frame_dimensions(FrameEstimate::Exact(frame(800, 600)), limit).unwrap();
    assert_eq!(r, Some(frame(800, 600)));
    let r = validate_frame_dimensions(FrameEstimate::UpperBound(frame(10, 10)), limit).unwrap();
    assert_eq!(r, Some(frame(10, 10)));
}

#[test]
fn frame_dimensions_beyond_limits_are_refused() {
    let limit = Some(FrameSizeBounds { w: 800, h: 600 });
    let e = validate_frame_dimensions(FrameEstimate::Exact(frame(801, 600)), limit).unwrap_err();
    assert_eq!(e.kind, ErrorKind::SizeLimitExceeded);
    let e = validate_frame_dimensions(FrameEstimate::UpperBound(frame(800, 601)), limit).unwrap_err();
    assert_eq!(e.kind, ErrorKind::SizeLimitExceeded);
    let huge = Some(FrameSizeBounds { w: 0x8000_0000, h: 600 });
    let e = validate_frame_dimensions(FrameEstimate::Exact(frame(1, 1)), huge).unwrap_err();
    assert_eq!(e.kind, ErrorKind::SizeLimitExceeded);
}

#[test]
fn frame_dimensions_without_limit_or_frame_are_not_checked() {
    assert_eq!(validate_frame_dimensions(FrameEstimate::Exact(frame(9000, 9000)), None).unwrap(), None);
    let huge = Some(FrameSizeBounds { w: 0x8000_0000, h: 600 });
    assert_eq!(validate_frame_dimensions(FrameEstimate::Unknown, huge).unwrap(), None);
}

#[test]
fn a_decoder_adds_orientation_only_for_positive_flags() {
    let d = DecoderDef {};
    assert_eq!(d.expand(Some(6)), Some(6));
    assert_eq!(d.expand(Some(0)), None);
    assert_eq!(d.expand(None), None);
    assert!(d.can_expand());
    assert_eq!(d.edges_required().unwrap(), (EdgesIn::NoInput, EdgesOut::Any));
    assert_eq!(d.estimate(40, 30, PixelFormat::Bgr32), FrameEstimate::Exact(FrameInfo { w: 40, h: 30, fmt: PixelFormat::Bgr32 }));
    assert!(d.tell_decoder::<u8>().is_none());
}

#[test]
fn a_primitive_decoder_passes_its_commands_on() {
    let d = DecoderPrimitiveDef {};
    assert_eq!(d.tell_decoder(3, Some(vec![1u8, 2])), Some((3, vec![1u8, 2])));
    assert_eq!(d.tell_decoder::<u8>(3, None), None);
    assert!(d.can_execute());
    assert_eq!(d.edges_required().unwrap(), (EdgesIn::NoInput, EdgesOut::Any));
}

#[test]
fn an_encoder_has_one_input_and_no_children() {
    let e = EncoderDef {};
    assert_eq!(e.edges_required().unwrap(), (EdgesIn::OneInput, EdgesOut::NoOutput));
    assert_eq!(e.estimate(FrameEstimate::Exact(frame(5, 6))), FrameEstimate::Exact(frame(5, 6)));
    assert!(e.can_execute());
}

#[test]
fn a_bitmap_pointer_node_serves_its_input_or_its_target() {
    let d = BitmapBgraDef {};
    assert_eq!(d.edges_required().unwrap(), (EdgesIn::OneOptionalInput, EdgesOut::Any));
    assert_eq!(d.validate_params(true).unwrap_err().kind, ErrorKind::InvalidNodeParams);
    assert!(d.validate_params(false).is_ok());
    assert_eq!(d.estimate(Some(frame(2, 3)), FrameEstimate::Unknown), FrameEstimate::Exact(frame(2, 3)));
    assert_eq!(d.estimate(None, FrameEstimate::UpperBound(frame(4, 4))), FrameEstimate::UpperBound(frame(4, 4)));
    assert_eq!(d.execute_source(true, true).unwrap(), PointerFrameSource::Input);
    assert_eq!(d.execute_source(false, false).unwrap(), PointerFrameSource::Target);
    assert_eq!(d.execute_source(false, true).unwrap_err().kind, ErrorKind::InvalidNodeParams);
}

#[test]
fn rounding_corners_blends_the_bitmap_with_itself() {
    let mut b = Bitmap::create_u8(3, 2, PixelLayout::BGRA, false, true, ColorSpace::StandardRGB, BitmapCompositing::ReplaceSelf).unwrap();
    assert!(RoundImageCornersMut.prepare(&mut b));
    assert_eq!(*b.info().compose(), BitmapCompositing::BlendWithSelf);
    let mut g = Bitmap::create_u8(3, 2, PixelLayout::BGR, false, false, ColorSpace::StandardRGB, BitmapCompositing::ReplaceSelf).unwrap();
    assert!(!RoundImageCornersMut.prepare(&mut g));
    assert_eq!(*g.info().compose(), BitmapCompositing::BlendWithSelf);
}
