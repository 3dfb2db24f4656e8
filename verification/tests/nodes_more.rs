use imageflow_core::flow::orientation::{
    orientation_estimate, orientation_steps, step_primitives, swap_dimensions_by_exif, OrientStep, Primitive,
};
use imageflow_core::errors::{ErrorCategory, ErrorKind, CaughtPanic, OutwardErrorBuffer};
use imageflow_core::flow::definitions::{FrameEstimate, FrameInfo};
use imageflow_core::flow::engine::{EdgeKind, EdgesIn, EdgesOut, GraphEdge, GraphNode, NodeGraph};
use imageflow_core::flow::nodes::{RegionParams, RegionPercentDef, RoundImageCorners, WatermarkDef, WatermarkMargins};
use imageflow_core::flow::scale::{
    DrawImageDef, DrawImageParams, DrawPlan, ResampleWhen, Scale2dDef, ScaleDef, SharpenWhen,
};
use imageflow_core::flow_error::FlowError;
use imageflow_core::graphics::aligned_buffer::{aligned_layout, AlignedBufferError, AlignedLayout};
use imageflow_core::graphics::bitmaps::{Bitmap, BitmapCompositing, Color32, ColorSpace, PixelFormat, PixelLayout};

fn info(w: i32, h: i32) -> FrameInfo {
    FrameInfo { w, h, fmt: PixelFormat::Bgra32 }
}

#[test]
fn the_first_error_is_kept_and_never_cleared() {
    let mut b = OutwardErrorBuffer::new();
    assert!(!b.has_error());
    assert!(b.try_clear());
    assert!(b.try_set_error(FlowError::new(ErrorKind::InvalidArgument)));
    assert_eq!(b.category(), ErrorCategory::ArgumentInvalid);
    assert!(!b.try_set_error(FlowError::new(ErrorKind::AllocationFailed)));
    assert_eq!(b.category(), ErrorCategory::ArgumentInvalid);
    assert!(!b.recoverable());
    assert!(!b.try_clear());
    assert!(b.has_error());
    assert_eq!(b.to_display_string(), "ArgumentInvalid: InvalidArgument at\n\n");
}

#[test]
fn a_panic_is_kept_and_reported_first() {
    let mut b = OutwardErrorBuffer::default();
    assert!(b.try_set_panic_error(CaughtPanic { text: Some("boom".to_string()) }));
    assert_eq!(b.category(), ErrorCategory::InternalError);
    assert!(!b.try_set_panic_error(CaughtPanic { text: None }));
    assert_eq!(b.to_display_string(), "InternalError: panicked: boom\n");
    assert!(b.try_clear());
    assert!(!b.has_error());
    assert_eq!(b.to_display_string(), "panicked: boom\n");
    assert!(b.try_set_error(FlowError::new(ErrorKind::InvalidArgument)));
    assert_eq!(b.to_display_string(), "ArgumentInvalid: 2 errors:\npanicked: boom\nInvalidArgument at\n\n");
}

#[test]
fn aligned_layouts() {
    assert_eq!(aligned_layout(10, 4, 16), Ok(AlignedLayout { capacity: 12, total: 16 }));
    assert_eq!(aligned_layout(0, 4, 64), Ok(AlignedLayout { capacity: 0, total: 16 }));
    assert_eq!(aligned_layout(3, 1, 2), Ok(AlignedLayout { capacity: 4, total: 6 }));
    assert_eq!(aligned_layout(10, 4, 12), Err(AlignedBufferError::InvalidAlignment));
    assert_eq!(aligned_layout(10, 4, 1), Err(AlignedBufferError::InvalidAlignment));
    assert_eq!(aligned_layout(usize::MAX, 2, 16), Err(AlignedBufferError::SizeOverflow));
    assert_eq!(aligned_layout(usize::MAX - 1, 1, 2), Err(AlignedBufferError::SizeOverflow));
}

#[test]
fn percent_regions_round_up_to_a_pixel() {
    assert_eq!(RegionPercentDef::adjust_coords(10, 10, 5, 12), (10, 10, 11, 12));
    assert_eq!(RegionPercentDef::adjust_coords(1, 8, 4, 3), (1, 8, 4, 9));
    assert_eq!(RegionPercentDef::adjust_coords(3, 3, 3, 3), (3, 3, 3, 3));
    assert_eq!(RegionPercentDef::region_frame(info(100, 50), (10, 10, 11, 12)), info(1, 2));
    assert_eq!(
        RegionPercentDef::region_params((1, 2, 3, 4), Color32(7)),
        RegionParams { x1: 1, y1: 2, x2: 3, y2: 4, background_color: Color32(7) }
    );
}

#[test]
fn scale_estimates_the_target_size() {
    let d = ScaleDef;
    assert_eq!(d.estimate(30, 40, FrameEstimate::Exact(info(10, 10))).unwrap(), FrameEstimate::Exact(info(30, 40)));
    assert_eq!(d.estimate(30, 40, FrameEstimate::UpperBound(info(10, 10))).unwrap(), FrameEstimate::UpperBound(info(30, 40)));
    assert_eq!(d.estimate(30, 40, FrameEstimate::Impossible).unwrap(), FrameEstimate::Impossible);
}

#[test]
fn scale_resamples_only_when_needed() {
    let d = ScaleDef;
    let bg = Color32(0);
    assert!(d.expand(10, 10, None, None, false, bg, info(10, 10)).is_none());
    let p = d.expand(10, 10, None, None, true, bg, info(10, 10)).unwrap();
    assert!(p.keep_sharpening);
    assert_eq!((p.canvas.w, p.canvas.h, p.canvas.format), (10, 10, PixelFormat::Bgra32));
    assert!(d.expand(10, 10, Some(ResampleWhen::SizeDiffers), None, true, bg, info(10, 10)).is_none());
    assert!(d.expand(10, 10, Some(ResampleWhen::Always), None, false, bg, info(10, 10)).is_some());
    let up = d.expand(20, 10, None, Some(SharpenWhen::Downscaling), true, bg, info(10, 10)).unwrap();
    assert!(!up.keep_sharpening);
    assert!(d.expand(10, 10, None, Some(SharpenWhen::SizeDiffers), true, bg, info(10, 10)).is_none());
}

#[test]
fn scale_onto_a_canvas() {
    let d = Scale2dDef;
    let canvas = info(10, 10);
    assert_eq!(
        d.expand(10, 10, None, Color32(0), info(5, 5), canvas).unwrap(),
        DrawImageParams { x: 0, y: 0, w: 10, h: 10, overwrite: true }
    );
    assert!(!d.expand(10, 10, Some(ResampleWhen::Always), Color32(0xFF000000), info(5, 5), canvas).unwrap().overwrite);
    assert_eq!(d.expand(9, 10, None, Color32(0), info(5, 5), canvas).unwrap_err().kind, ErrorKind::InvalidNodeParams);
    let bgr = FrameInfo { w: 5, h: 5, fmt: PixelFormat::Bgr24 };
    assert_eq!(d.expand(10, 10, None, Color32(0), bgr, canvas).unwrap_err().kind, ErrorKind::InvalidNodeConnections);
    assert_eq!(
        d.expand(10, 10, Some(ResampleWhen::SizeDiffers), Color32(0), info(5, 5), canvas).unwrap_err().kind,
        ErrorKind::InvalidNodeParams
    );
}

#[test]
fn draw_image_setup() {
    let mk = |w, h| Bitmap::create_u8(w, h, PixelLayout::BGRA, false, true, ColorSpace::StandardRGB, BitmapCompositing::ReplaceSelf).unwrap();
    let mut canvas = mk(10, 10);
    let input = mk(5, 5);
    let d = DrawImageDef;
    let plan = d.prepare(&mut canvas, &input, 0, 0, 10, 10, None, None, true).unwrap();
    assert_eq!(plan, DrawPlan { use_up_filter: true, keep_sharpening: true });
    assert_eq!(*canvas.info().surface_info().compose(), BitmapCompositing::BlendWithSelf);
    let plan = d.prepare(&mut canvas, &input, 0, 0, 2, 2, None, Some(SharpenWhen::Upscaling), true).unwrap();
    assert_eq!(plan, DrawPlan { use_up_filter: false, keep_sharpening: false });
    assert_eq!(d.prepare(&mut canvas, &input, 5, 0, 10, 10, None, None, true).unwrap_err().kind, ErrorKind::InvalidNodeParams);
    let mut matte = mk(10, 10);
    matte.set_compositing(BitmapCompositing::BlendWithMatte(Color32(0xFFFFFFFF)));
    d.prepare(&mut matte, &input, 0, 0, 5, 5, Some(ResampleWhen::Always), None, false).unwrap();
    assert_eq!(*matte.info().surface_info().compose(), BitmapCompositing::ReplaceSelf);
}

#[test]
fn watermark_boxes_from_margins() {
    assert_eq!(WatermarkDef::margins_bounding_box(100, 50, None), Some((0, 0, 100, 50)));
    let m = WatermarkMargins { left: 10, top: 5, right: 20, bottom: 5 };
    assert_eq!(WatermarkDef::margins_bounding_box(100, 50, Some(m)), Some((10, 5, 80, 45)));
    let wide = WatermarkMargins { left: 60, top: 0, right: 40, bottom: 0 };
    assert_eq!(WatermarkDef::margins_bounding_box(100, 50, Some(wide)), None);
}

#[test]
fn rounded_corners_need_transparency_for_translucent_backgrounds() {
    assert!(!RoundImageCorners.expand(Color32(0xFF000000)));
    assert!(RoundImageCorners.expand(Color32(0x00FFFFFF)));
}

#[test]
fn estimation_gives_up_on_impossible_parents() {
    let node = |estimate| GraphNode {
        can_execute: true,
        can_expand: false,
        executed: false,
        estimate,
        edges_in: EdgesIn::OneInput,
        edges_out: EdgesOut::Any,
    };
    let g = NodeGraph {
        nodes: vec![node(FrameEstimate::Impossible), node(FrameEstimate::Exact(info(1, 1))), node(FrameEstimate::Unknown)],
        edges: vec![GraphEdge { from: 0, to: 2, kind: EdgeKind::Input }, GraphEdge { from: 1, to: 2, kind: EdgeKind::Input }],
    };
    assert!(g.estimation_gives_up(2));
    assert!(!g.estimation_gives_up(1));
    assert!(!g.inputs_estimated(2));
}

#[test]
fn orientation_flags_become_steps_and_primitives() {
    assert_eq!(orientation_steps(7), vec![OrientStep::Rotate180, OrientStep::Transpose]);
    assert_eq!(orientation_steps(6), vec![OrientStep::Rotate270]);
    assert_eq!(orientation_steps(2), vec![OrientStep::FlipH]);
    assert!(orientation_steps(1).is_empty());
    assert!(orientation_steps(9).is_empty());
    assert_eq!(step_primitives(OrientStep::Rotate90), vec![Primitive::Transpose, Primitive::FlipV]);
    assert_eq!(step_primitives(OrientStep::Rotate270), vec![Primitive::FlipV, Primitive::Transpose]);
    assert_eq!(orientation_estimate(6, FrameEstimate::Exact(info(3, 5))), FrameEstimate::Exact(info(5, 3)));
    assert_eq!(orientation_estimate(3, FrameEstimate::Exact(info(3, 5))), FrameEstimate::Exact(info(3, 5)));
    assert_eq!(orientation_estimate(6, FrameEstimate::UpperBound(info(3, 5))), FrameEstimate::UpperBound(info(3, 5)));
    assert_eq!(swap_dimensions_by_exif(Some(8), 3, 5), (5, 3));
    assert_eq!(swap_dimensions_by_exif(Some(4), 3, 5), (3, 5));
    assert_eq!(swap_dimensions_by_exif(None, 3, 5), (3, 5));
}
