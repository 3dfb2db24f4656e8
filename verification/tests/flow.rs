use imageflow_core::errors::ErrorKind;
use imageflow_core::flow::definitions::{FrameEstimate, FrameInfo};
use imageflow_core::flow::engine::{EdgeKind, EdgesIn, EdgesOut, GraphEdge, GraphNode, NodeGraph, NodeShape};
use imageflow_core::flow::nodes::{
    CloneDef, CopyRectNodeDef, CopyRectParams, CreateCanvasNodeDef, CreateCanvasParams, CropMutNodeDef,
    CropParams, CropWhitespaceDef, EnableTransparencyDef, EnableTransparencyMutDef, ExpandCanvasDef,
    ExpandCanvasParams, FillRectNodeDef, FillRectParams, RegionDef, RegionParams, RegionPlan,
    TransparencyPlan, WatermarkRedDotDef,
};
use imageflow_core::graphics::bitmaps::{Bitmap, BitmapCompositing, Color32, ColorSpace, PixelFormat, PixelLayout};
use imageflow_core::graphics::whitespace::RectCorners;

fn info(w: i32, h: i32) -> FrameInfo {
    FrameInfo { w, h, fmt: PixelFormat::Bgra32 }
}

#[test]
fn transpose_swaps_dimensions_of_known_frames() {
    let e = FrameEstimate::Exact(FrameInfo { w: 3, h: 7, fmt: PixelFormat::Bgr24 });
    assert_eq!(e.transpose(), FrameEstimate::Exact(FrameInfo { w: 7, h: 3, fmt: PixelFormat::Bgr24 }));
    assert_eq!(e.transpose().transpose(), e);
    assert_eq!(FrameEstimate::Impossible.transpose(), FrameEstimate::Impossible);
    assert!(FrameEstimate::Unknown.is_none());
    assert!(e.is_some());
    assert!(!FrameEstimate::UpperBound(info(1, 1)).is_some());
}

#[test]
fn create_canvas_limits() {
    let def = CreateCanvasNodeDef {};
    let ok = CreateCanvasParams { w: 10, h: 20, format: PixelFormat::Bgra32, color: Color32(0) };
    assert_eq!(def.estimate(&ok).unwrap(), FrameEstimate::Exact(FrameInfo { w: 10, h: 20, fmt: PixelFormat::Bgra32 }));
    let zero = CreateCanvasParams { w: 0, ..ok };
    assert_eq!(def.get(&zero).unwrap_err().kind, ErrorKind::InvalidCoordinates);
    let huge = CreateCanvasParams { w: 20_000, h: 20_000, ..ok };
    assert_eq!(def.get(&huge).unwrap_err().kind, ErrorKind::InvalidCoordinates);
    let too_wide = CreateCanvasParams { w: 2_000_001, h: 1, ..ok };
    assert_eq!(def.get(&too_wide).unwrap_err().kind, ErrorKind::InvalidCoordinates);
    let gray = CreateCanvasParams { format: PixelFormat::Gray8, ..ok };
    assert_eq!(def.validate_params(&gray).unwrap_err().kind, ErrorKind::InvalidNodeParams);
    let bgr = CreateCanvasParams { format: PixelFormat::Bgr24, ..ok };
    assert_eq!(def.get(&bgr).unwrap_err().kind, ErrorKind::InvalidNodeParams);
}

#[test]
fn region_inside_the_input_crops() {
    let p = RegionParams { x1: 10, y1: 20, x2: 30, y2: 50, background_color: Color32(0xFF000000) };
    match RegionDef.expand(&p, info(100, 100)).unwrap() {
        RegionPlan::CropThenExpand(c, e) => {
            assert_eq!(c, CropParams { x1: 10, y1: 20, x2: 30, y2: 50 });
            assert_eq!((e.left, e.top, e.right, e.bottom), (0, 0, 0, 0));
        }
        other => panic!("unexpected {:?}", other),
    }
}

#[test]
fn region_beyond_the_input_crops_then_expands() {
    let p = RegionParams { x1: -10, y1: 5, x2: 120, y2: 80, background_color: Color32(0) };
    match RegionDef.expand(&p, info(100, 60)).unwrap() {
        RegionPlan::CropThenExpand(c, e) => {
            assert_eq!(c, CropParams { x1: 0, y1: 5, x2: 100, y2: 60 });
            assert_eq!((e.left, e.top, e.right, e.bottom), (10, 0, 20, 20));
            assert_eq!(c.x2 - c.x1 + e.left + e.right, 130);
            assert_eq!(c.y2 - c.y1 + e.top + e.bottom, 75);
        }
        other => panic!("unexpected {:?}", other),
    }
    let est = RegionDef.estimate(&p, FrameEstimate::Exact(info(100, 60))).unwrap();
    assert_eq!(est, FrameEstimate::Exact(info(130, 75)));
}

#[test]
fn region_missing_the_input_is_a_canvas() {
    let p = RegionParams { x1: 200, y1: 0, x2: 210, y2: 5, background_color: Color32(0xFF00FF00) };
    assert_eq!(
        RegionDef.expand(&p, info(100, 100)).unwrap(),
        RegionPlan::Canvas(CreateCanvasParams { w: 10, h: 5, format: PixelFormat::Bgra32, color: Color32(0xFF00FF00) })
    );
}

#[test]
fn region_that_is_not_a_rectangle_is_refused() {
    let p = RegionParams { x1: 5, y1: 5, x2: 5, y2: 10, background_color: Color32(0) };
    assert_eq!(RegionDef.expand(&p, info(10, 10)).unwrap_err().kind, ErrorKind::InvalidNodeParams);
    assert_eq!(RegionDef.estimate(&p, FrameEstimate::Exact(info(10, 10))).unwrap_err().kind, ErrorKind::InvalidNodeParams);
    assert_eq!(RegionDef.estimate(&p, FrameEstimate::Impossible).unwrap(), FrameEstimate::Impossible);
}

#[test]
fn expand_canvas_plans_canvas_and_copy() {
    let p = ExpandCanvasParams { left: 1, top: 2, right: 3, bottom: 4, color: Color32(0x80FFFFFF) };
    let plan = ExpandCanvasDef.expand(&p, FrameInfo { w: 10, h: 20, fmt: PixelFormat::Bgr32 });
    assert_eq!(plan.canvas, CreateCanvasParams { w: 14, h: 26, format: PixelFormat::Bgra32, color: Color32(0x80FFFFFF) });
    assert_eq!(plan.copy, CopyRectParams { from_x: 0, from_y: 0, w: 10, h: 20, x: 1, y: 2 });
    let opaque = ExpandCanvasParams { color: Color32(0xFFFFFFFF), ..p };
    let est = ExpandCanvasDef.estimate(&opaque, FrameEstimate::Exact(FrameInfo { w: 10, h: 20, fmt: PixelFormat::Bgr32 })).unwrap();
    assert_eq!(est, FrameEstimate::Exact(FrameInfo { w: 14, h: 26, fmt: PixelFormat::Bgr32 }));
}

#[test]
fn clone_copies_onto_a_transparent_canvas() {
    let plan = CloneDef.expand(FrameInfo { w: 4, h: 5, fmt: PixelFormat::Bgr32 });
    assert_eq!(plan.canvas, CreateCanvasParams { w: 4, h: 5, format: PixelFormat::Bgr32, color: Color32(0) });
    assert_eq!(plan.copy, CopyRectParams { from_x: 0, from_y: 0, w: 4, h: 5, x: 0, y: 0 });
}

#[test]
fn crop_validation() {
    let def = CropMutNodeDef;
    let p = CropParams { x1: 1, y1: 1, x2: 5, y2: 4 };
    assert_eq!(def.est_validate(&p, FrameEstimate::Exact(info(10, 10))).unwrap(), FrameEstimate::Exact(info(4, 3)));
    assert_eq!(def.est_validate(&p, FrameEstimate::Exact(info(4, 10))).unwrap_err().kind, ErrorKind::InvalidNodeParams);
    assert_eq!(def.est_validate(&p, FrameEstimate::Impossible).unwrap(), FrameEstimate::Unknown);
    let bad = CropParams { x1: 5, y1: 1, x2: 5, y2: 4 };
    assert_eq!(def.validate_params(&bad).unwrap_err().kind, ErrorKind::InvalidNodeParams);
    let far = CropParams { x1: 3_000_000_000, y1: 1, x2: 3_000_000_001, y2: 4 };
    assert!(def.validate_params(&far).is_err());
}

#[test]
fn crop_node_crops_the_bitmap() {
    let mut b = Bitmap::create_u8(6, 6, PixelLayout::BGRA, false, true, ColorSpace::StandardRGB, BitmapCompositing::ReplaceSelf).unwrap();
    CropMutNodeDef.execute(&CropParams { x1: 1, y1: 2, x2: 4, y2: 6 }, &mut b).unwrap();
    assert_eq!(b.size(), (3, 4));
    assert!(CropMutNodeDef.execute(&CropParams { x1: 0, y1: 0, x2: 4, y2: 6 }, &mut b).is_err());
}

#[test]
fn copy_rect_node_checks_coordinates() {
    let mut canvas = Bitmap::create_u8(4, 4, PixelLayout::BGRA, false, true, ColorSpace::StandardRGB, BitmapCompositing::ReplaceSelf).unwrap();
    let mut input = Bitmap::create_u8(2, 2, PixelLayout::BGRA, false, true, ColorSpace::StandardRGB, BitmapCompositing::ReplaceSelf).unwrap();
    input.fill_rectangle(Color32(0xFF010203), 0, 0, 2, 2).unwrap();
    let bad = CopyRectParams { from_x: 0, from_y: 0, w: 2, h: 2, x: 3, y: 0 };
    assert_eq!(CopyRectNodeDef.render(&mut canvas, &mut input, &bad).unwrap_err().kind, ErrorKind::InvalidNodeParams);
    let good = CopyRectParams { from_x: 0, from_y: 0, w: 2, h: 2, x: 2, y: 2 };
    CopyRectNodeDef.render(&mut canvas, &mut input, &good).unwrap();
    assert_eq!(canvas.get_pixel_bgra8(3, 3).unwrap().r, 1);
    assert_eq!(canvas.get_pixel_bgra8(1, 1).unwrap().r, 0);
}

#[test]
fn fill_rect_node() {
    let mut b = Bitmap::create_u8(4, 4, PixelLayout::BGRA, false, true, ColorSpace::StandardRGB, BitmapCompositing::ReplaceSelf).unwrap();
    let p = FillRectParams { x1: 0, y1: 0, x2: 2, y2: 2, color: Color32(0xFF0000FF) };
    FillRectNodeDef.mutate(&mut b, &p).unwrap();
    assert_eq!(b.get_pixel_bgra8(1, 1).unwrap().b, 0xFF);
    assert_eq!(*b.info().compose(), BitmapCompositing::BlendWithSelf);
    let bad = FillRectParams { x2: 5, ..p };
    assert_eq!(FillRectNodeDef.mutate(&mut b, &bad).unwrap_err().kind, ErrorKind::InvalidCoordinates);
}

#[test]
fn watermark_red_dot_marks_the_corner() {
    let p = WatermarkRedDotDef.expand(info(10, 8)).unwrap();
    assert_eq!(p, FillRectParams { x1: 7, y1: 5, x2: 10, y2: 8, color: Color32(0xFFFF0000) });
    assert!(WatermarkRedDotDef.expand(info(3, 8)).is_none());
}

#[test]
fn enable_transparency_by_format() {
    assert_eq!(EnableTransparencyDef.expand(info(3, 4)), TransparencyPlan::Remove);
    assert_eq!(EnableTransparencyDef.expand(FrameInfo { w: 3, h: 4, fmt: PixelFormat::Bgr32 }), TransparencyPlan::MutateInPlace);
    match EnableTransparencyDef.expand(FrameInfo { w: 3, h: 4, fmt: PixelFormat::Bgr24 }) {
        TransparencyPlan::CopyToCanvas(plan) => {
            assert_eq!((plan.canvas.w, plan.canvas.h), (4, 3));
            assert_eq!(plan.canvas.format, PixelFormat::Bgra32);
        }
        other => panic!("unexpected {:?}", other),
    }
    let mut b = Bitmap::create_u8(2, 2, PixelLayout::BGRA, false, false, ColorSpace::StandardRGB, BitmapCompositing::ReplaceSelf).unwrap();
    EnableTransparencyMutDef.mutate(&mut b).unwrap();
    assert!(b.info().alpha_meaningful());
    assert_eq!(b.get_pixel_bgra8(0, 0).unwrap().a, 0xFF);
    assert_eq!(EnableTransparencyMutDef.mutate(&mut b).unwrap_err().kind, ErrorKind::InvalidNodeConnections);
}

#[test]
fn crop_whitespace_pads_within_the_image() {
    let rect = RectCorners { x1: 10, y1: 20, x2: 30, y2: 40 };
    let c = CropWhitespaceDef.crop_for_content(rect, 15, 40, 50).unwrap();
    assert_eq!(c, CropParams { x1: 0, y1: 5, x2: 40, y2: 50 });
    let empty = RectCorners { x1: 10, y1: 20, x2: 10, y2: 40 };
    assert_eq!(CropWhitespaceDef.crop_for_content(empty, 1, 40, 50).unwrap_err().kind, ErrorKind::InvalidState);
    assert_eq!(CropWhitespaceDef.estimate().unwrap(), FrameEstimate::Impossible);
}

fn node(can_execute: bool, can_expand: bool, executed: bool) -> GraphNode {
    GraphNode {
        can_execute,
        can_expand,
        executed,
        estimate: FrameEstimate::Unknown,
        edges_in: EdgesIn::OneInput,
        edges_out: EdgesOut::Any,
    }
}

#[test]
fn engine_picks_the_first_ready_node() {
    let g = NodeGraph {
        nodes: vec![node(true, false, true), node(true, false, false), node(true, false, false)],
        edges: vec![
            GraphEdge { from: 0, to: 1, kind: EdgeKind::Input },
            GraphEdge { from: 1, to: 2, kind: EdgeKind::Input },
        ],
    };
    assert_eq!(g.next_to_execute().unwrap(), Some(1));
    assert!(g.parents_complete(1));
    assert!(!g.parents_complete(2));
    assert!(!g.graph_fully_executed());
    assert_eq!(g.next_to_expand(), None);
    let stuck = NodeGraph { nodes: vec![node(false, false, false)], edges: vec![] };
    assert_eq!(stuck.next_to_execute().unwrap_err().kind, ErrorKind::MethodNotImplemented);
}

#[test]
fn engine_checks_node_edges() {
    let mut sink = node(true, false, false);
    sink.edges_out = EdgesOut::NoOutput;
    let g = NodeGraph {
        nodes: vec![node(true, false, true), sink, node(true, false, false)],
        edges: vec![
            GraphEdge { from: 0, to: 1, kind: EdgeKind::Input },
            GraphEdge { from: 1, to: 2, kind: EdgeKind::Input },
        ],
    };
    assert!(g.check_node_edges(2).is_ok());
    assert_eq!(g.check_node_edges(1).unwrap_err().kind, ErrorKind::InvalidNodeConnections);
    let mut source = node(true, false, false);
    source.edges_in = EdgesIn::NoInput;
    let g2 = NodeGraph { nodes: vec![node(true, false, true), source], edges: vec![GraphEdge { from: 0, to: 1, kind: EdgeKind::Canvas }] };
    assert!(g2.check_node_edges(1).is_err());
    assert_eq!(g2.inputs_estimates(1), vec![FrameEstimate::Unknown]);
    assert!(!g2.inputs_estimated(1));
}

#[test]
fn node_shapes_decide_edges_and_abilities() {
    let e = NodeShape::OneInputOneCanvas.edges_required().unwrap();
    assert_eq!(e, (EdgesIn::OneInputOneCanvas, EdgesOut::Any));
    assert_eq!(NodeShape::MutateBitmap.edges_required().unwrap(), (EdgesIn::OneInput, EdgesOut::Any));
    assert_eq!(NodeShape::Custom.edges_required().unwrap_err().kind, ErrorKind::MethodNotImplemented);
    assert!(NodeShape::OneInputExpand.can_expand());
    assert!(!NodeShape::OneInputExpand.can_execute());
    assert!(NodeShape::MutateBitmap.can_execute());
    assert_eq!(NodeShape::OneInputOneCanvas.estimate_source(), Some(EdgeKind::Canvas));
    assert_eq!(NodeShape::MutateBitmap.estimate_source(), Some(EdgeKind::Input));
    assert_eq!(NodeShape::OneInputExpand.estimate_source(), None);
}
