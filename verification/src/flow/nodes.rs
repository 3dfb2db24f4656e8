//! The node definitions whose work is geometry: creating canvases, cropping, regions, expanding
//! canvases, cloning and copying rectangles. Each definition validates its parameters, estimates
//! the frame it produces, and either renders or says which simpler nodes take its place.
use vstd::prelude::*;
use crate::errors::ErrorKind;
use crate::flow_error::FlowError;
use crate::flow::definitions::{FrameEstimate, FrameInfo};
use crate::graphics::alpha::alpha_filled_bytes;
use crate::graphics::bitmaps::{Bitmap, BitmapCompositing, Color32, PixelFormat, PixelLayout, SurfaceInfo};
use crate::graphics::whitespace::RectCorners;
use crate::graphics::copy_rect::{copy_rectangle, copy_rect_accepts, copy_rect_args_invalid, copy_rect_outcome};
use crate::graphics::fill::{color_byte, flow_bitmap_bgra_fill_rect};

verus! {

/// The largest width or height of a canvas.
pub const MAX_CANVAS_DIMENSION: usize = 2000000;

/// The largest number of pixels of a canvas.
pub const MAX_CANVAS_PIXELS: u64 = 100000000;

/// Parameters of a node that creates a canvas filled with a color.
#[derive(Copy, Clone, Debug, PartialEq, Eq, Structural)]
pub struct CreateCanvasParams {
    pub w: usize,
    pub h: usize,
    pub format: PixelFormat,
    pub color: Color32,
}

/// Parameters of a node that copies a rectangle of its input onto its canvas.
#[derive(Copy, Clone, Debug, PartialEq, Eq, Structural)]
pub struct CopyRectParams {
    pub from_x: u32,
    pub from_y: u32,
    pub w: u32,
    pub h: u32,
    pub x: u32,
    pub y: u32,
}

/// Parameters of a crop to the columns `x1..x2` and rows `y1..y2`.
#[derive(Copy, Clone, Debug, PartialEq, Eq, Structural)]
pub struct CropParams {
    pub x1: u32,
    pub y1: u32,
    pub x2: u32,
    pub y2: u32,
}

/// Parameters of a node that adds margins of a color around its input.
#[derive(Copy, Clone, Debug, PartialEq, Eq, Structural)]
pub struct ExpandCanvasParams {
    pub left: u32,
    pub top: u32,
    pub right: u32,
    pub bottom: u32,
    pub color: Color32,
}

/// Parameters of a node that takes the region `x1..x2` by `y1..y2` of its input, which may reach
/// beyond the input on any side; what lies beyond is filled with the background color.
#[derive(Copy, Clone, Debug, PartialEq, Eq, Structural)]
pub struct RegionParams {
    pub x1: i32,
    pub y1: i32,
    pub x2: i32,
    pub y2: i32,
    pub background_color: Color32,
}

/// The color is fully opaque (alpha 255).
pub open spec fn color_is_opaque(c: Color32) -> bool {
    c.0 / 16777216 == 255
}

impl Color32 {
    /// The color is fully opaque (alpha 255).
    pub fn is_opaque(&self) -> (r: bool)
        ensures
            r == color_is_opaque(*self),
    {
        self.0 / 16777216 == 255
    }
}

/// Why a canvas cannot be created, if it cannot.
pub open spec fn canvas_error(w: int, h: int, format: PixelFormat) -> Option<ErrorKind> {
    if w < 1 || w > MAX_CANVAS_DIMENSION || h < 1 || h > MAX_CANVAS_DIMENSION || w * h > MAX_CANVAS_PIXELS {
        Some(ErrorKind::InvalidCoordinates)
    } else if format == PixelFormat::Gray8 || format == PixelFormat::Bgr24 {
        Some(ErrorKind::InvalidNodeParams)
    } else {
        None
    }
}

/// Creates canvases.
#[derive(Debug, Clone)]
pub struct CreateCanvasNodeDef {}

impl CreateCanvasNodeDef {
    /// The canvas to create: each dimension from 1 to two million and at most 100 megapixels in
    /// all (else `InvalidCoordinates`), in a 32-bit BGR or BGRA format (else `InvalidNodeParams`).
    pub fn get(&self, p: &CreateCanvasParams) -> (r: Result<(usize, usize, PixelFormat, Color32), FlowError>)
        ensures
            canvas_error(p.w as int, p.h as int, p.format) matches Some(k) ==> r matches Err(e) && e.kind == k,
            canvas_error(p.w as int, p.h as int, p.format) is None ==> r == Ok::<(usize, usize, PixelFormat, Color32), FlowError>((p.w, p.h, p.format, p.color)),
    {
        if p.w < 1 || p.w > MAX_CANVAS_DIMENSION {
            Err(FlowError::with_message(ErrorKind::InvalidCoordinates, "canvas width must be greater than zero and at most two million"))
        } else if p.h < 1 || p.h > MAX_CANVAS_DIMENSION {
            Err(FlowError::with_message(ErrorKind::InvalidCoordinates, "canvas height must be greater than zero and at most two million"))
        } else if {
            proof {
                assert(p.h * p.w <= 2000000 * 2000000) by (nonlinear_arith)
                    requires p.h <= 2000000, p.w <= 2000000;
            }
            (p.h as u64) * (p.w as u64) > MAX_CANVAS_PIXELS
        } {
            Err(FlowError::with_message(ErrorKind::InvalidCoordinates, "canvas size cannot exceed 100 megapixels"))
        } else if p.format == PixelFormat::Gray8 {
            Err(FlowError::with_message(ErrorKind::InvalidNodeParams, "canvas format cannot be grayscale"))
        } else if p.format == PixelFormat::Bgr24 {
            Err(FlowError::with_message(ErrorKind::InvalidNodeParams, "canvas format Bgr24 not permitted. Use Bgr32 instead"))
        } else {
            Ok((p.w, p.h, p.format, p.color))
        }
    }

    /// Accepts exactly the parameters that `get` accepts.
    pub fn validate_params(&self, p: &CreateCanvasParams) -> (r: Result<(), FlowError>)
        ensures
            r is Ok <==> canvas_error(p.w as int, p.h as int, p.format) is None,
            canvas_error(p.w as int, p.h as int, p.format) matches Some(k) ==> r matches Err(e) && e.kind == k,
    {
        match self.get(p) {
            Ok(_) => Ok(()),
            Err(e) => Err(e),
        }
    }

    /// The canvas is known exactly.
    pub fn estimate(&self, p: &CreateCanvasParams) -> (r: Result<FrameEstimate, FlowError>)
        ensures
            canvas_error(p.w as int, p.h as int, p.format) matches Some(k) ==> r matches Err(e) && e.kind == k,
            canvas_error(p.w as int, p.h as int, p.format) is None ==> r == Ok::<FrameEstimate, FlowError>(
                FrameEstimate::Exact(FrameInfo { w: p.w as i32, h: p.h as i32, fmt: p.format })),
    {
        match self.get(p) {
            Ok((w, h, format, _)) => Ok(FrameEstimate::Exact(FrameInfo { w: w as i32, h: h as i32, fmt: format })),
            Err(e) => Err(e),
        }
    }
}

/// What a node with one input is replaced by when the graph is expanded: a canvas that the
/// input is copied onto.
#[derive(Copy, Clone, Debug, PartialEq, Eq, Structural)]
pub struct CanvasCopyPlan {
    pub canvas: CreateCanvasParams,
    pub copy: CopyRectParams,
}

/// What a region node is replaced by.
#[derive(Copy, Clone, Debug, PartialEq, Eq, Structural)]
pub enum RegionPlan {
    /// The region misses the input: a canvas of the region's size, filled with the background.
    Canvas(CreateCanvasParams),
    /// The part of the region that lies on the input is cropped, then margins bring it to the
    /// region's size.
    CropThenExpand(CropParams, ExpandCanvasParams),
}

/// Copies its input onto a new canvas of the same size and format.
#[derive(Debug, Clone)]
pub struct CloneDef;

impl CloneDef {
    /// A transparent canvas of the input's size and format, with all of the input copied onto it.
    pub fn expand(&self, parent: FrameInfo) -> (r: CanvasCopyPlan)
        requires
            parent.w >= 0,
            parent.h >= 0,
        ensures
            r == (CanvasCopyPlan {
                canvas: CreateCanvasParams { w: parent.w as usize, h: parent.h as usize, format: parent.fmt, color: Color32(0) },
                copy: CopyRectParams { from_x: 0, from_y: 0, x: 0, y: 0, w: parent.w as u32, h: parent.h as u32 },
            }),
    {
        CanvasCopyPlan {
            canvas: CreateCanvasParams { w: parent.w as usize, h: parent.h as usize, format: parent.fmt, color: Color32(0) },
            copy: CopyRectParams { from_x: 0, from_y: 0, x: 0, y: 0, w: parent.w as u32, h: parent.h as u32 },
        }
    }
}

/// The frame once margins are added: wider and taller by the margins (each taken as an `i32`),
/// in the input's format when the margin color is opaque and in BGRA otherwise.
pub open spec fn expanded_info(info: FrameInfo, p: ExpandCanvasParams) -> FrameInfo {
    FrameInfo {
        w: (info.w + (p.left as i32) + (p.right as i32)) as i32,
        h: (info.h + (p.top as i32) + (p.bottom as i32)) as i32,
        fmt: if color_is_opaque(p.color) { info.fmt } else { PixelFormat::Bgra32 },
    }
}

/// The sums of the dimensions and the margins (each taken as an `i32`) fit in an `i32`.
pub open spec fn expansion_fits(info: FrameInfo, p: ExpandCanvasParams) -> bool {
    &&& i32::MIN <= info.w + (p.left as i32) <= i32::MAX
    &&& i32::MIN <= info.w + (p.left as i32) + (p.right as i32) <= i32::MAX
    &&& i32::MIN <= info.h + (p.top as i32) <= i32::MAX
    &&& i32::MIN <= info.h + (p.top as i32) + (p.bottom as i32) <= i32::MAX
}

/// Adds margins of a color around its input.
#[derive(Debug, Clone)]
pub struct ExpandCanvasDef;

impl ExpandCanvasDef {
    /// The estimate of the expanded frame.
    pub fn estimate(&self, p: &ExpandCanvasParams, input: FrameEstimate) -> (r: Result<FrameEstimate, FlowError>)
        requires
            input matches FrameEstimate::Exact(info) ==> expansion_fits(info, *p),
            input matches FrameEstimate::UpperBound(info) ==> expansion_fits(info, *p),
        ensures
            r == Ok::<FrameEstimate, FlowError>(match input {
                FrameEstimate::Exact(info) => FrameEstimate::Exact(expanded_info(info, *p)),
                FrameEstimate::UpperBound(info) => FrameEstimate::UpperBound(expanded_info(info, *p)),
                other => other,
            }),
    {
        let p = *p;
        let expand = |info: FrameInfo| -> (o: Result<FrameInfo, FlowError>)
            requires
                expansion_fits(info, p),
            ensures
                o == Ok::<FrameInfo, FlowError>(expanded_info(info, p)),
        {
            Ok(FrameInfo {
                w: info.w + p.left as i32 + p.right as i32,
                h: info.h + p.top as i32 + p.bottom as i32,
                fmt: if p.color.is_opaque() { info.fmt } else { PixelFormat::Bgra32 },
            })
        };
        input.map_frame(expand)
    }

    /// A canvas of the expanded size in the margin color, with the input copied at the left and
    /// top margins.
    pub fn expand(&self, p: &ExpandCanvasParams, parent: FrameInfo) -> (r: CanvasCopyPlan)
        requires
            parent.w >= 0,
            parent.h >= 0,
        ensures
            r == (CanvasCopyPlan {
                canvas: CreateCanvasParams {
                    w: (parent.w + p.left + p.right) as usize,
                    h: (parent.h + p.top + p.bottom) as usize,
                    format: if color_is_opaque(p.color) { parent.fmt } else { PixelFormat::Bgra32 },
                    color: p.color,
                },
                copy: CopyRectParams { from_x: 0, from_y: 0, x: p.left, y: p.top, w: parent.w as u32, h: parent.h as u32 },
            }),
    {
        let new_w = parent.w as u64 + p.left as u64 + p.right as u64;
        let new_h = parent.h as u64 + p.top as u64 + p.bottom as u64;
        CanvasCopyPlan {
            canvas: CreateCanvasParams {
                w: new_w as usize,
                h: new_h as usize,
                format: if p.color.is_opaque() { parent.fmt } else { PixelFormat::Bgra32 },
                color: p.color,
            },
            copy: CopyRectParams { from_x: 0, from_y: 0, x: p.left, y: p.top, w: parent.w as u32, h: parent.h as u32 },
        }
    }
}

/// The region is not a rectangle: its right or bottom edge is not past its left or top edge.
pub open spec fn region_invalid(p: RegionParams) -> bool {
    p.y2 <= p.y1 || p.x2 <= p.x1
}

/// The region's width and height fit in an `i32`.
pub open spec fn region_fits(p: RegionParams) -> bool {
    p.x2 - p.x1 <= i32::MAX && p.y2 - p.y1 <= i32::MAX
}

/// The region has no pixel in common with a `w` by `h` input.
pub open spec fn region_misses(p: RegionParams, w: int, h: int) -> bool {
    p.x1 >= w || p.y1 >= h || p.x2 <= 0 || p.y2 <= 0
}

/// `v` limited to `0..=hi`.
pub open spec fn clamp0(v: int, hi: int) -> int {
    if v < 0 { 0 } else if v > hi { hi } else { v }
}

/// `v` when positive, else 0.
pub open spec fn pos_part(v: int) -> int {
    if v > 0 { v } else { 0 }
}

/// The plan of a region that is a rectangle, on a `w` by `h` input.
pub open spec fn region_plan(p: RegionParams, input: FrameInfo) -> RegionPlan {
    if region_misses(p, input.w as int, input.h as int) {
        RegionPlan::Canvas(CreateCanvasParams {
            w: (p.x2 - p.x1) as usize,
            h: (p.y2 - p.y1) as usize,
            format: input.fmt,
            color: p.background_color,
        })
    } else {
        RegionPlan::CropThenExpand(
            CropParams {
                x1: clamp0(p.x1 as int, input.w as int) as u32,
                y1: clamp0(p.y1 as int, input.h as int) as u32,
                x2: clamp0(p.x2 as int, input.w as int) as u32,
                y2: clamp0(p.y2 as int, input.h as int) as u32,
            },
            ExpandCanvasParams {
                left: pos_part(-p.x1) as u32,
                top: pos_part(-p.y1) as u32,
                right: pos_part(p.x2 - input.w) as u32,
                bottom: pos_part(p.y2 - input.h) as u32,
                color: p.background_color,
            },
        )
    }
}

/// The region of a frame: its size, in the frame's format.
pub open spec fn region_info(p: RegionParams, info: FrameInfo) -> FrameInfo {
    FrameInfo { w: (p.x2 - p.x1) as i32, h: (p.y2 - p.y1) as i32, fmt: info.fmt }
}

/// Takes a region of its input, which may reach beyond it.
#[derive(Debug, Clone)]
pub struct RegionDef;

impl RegionDef {
    /// The estimate of the region: its size, in the input's format; a region that is not a
    /// rectangle is refused with `InvalidNodeParams` where there is a frame to estimate.
    pub fn estimate(&self, p: &RegionParams, input: FrameEstimate) -> (r: Result<FrameEstimate, FlowError>)
        requires
            region_fits(*p),
        ensures
            match input {
                FrameEstimate::Exact(info) => if region_invalid(*p) {
                    r matches Err(e) && e.kind == ErrorKind::InvalidNodeParams
                } else {
                    r == Ok::<FrameEstimate, FlowError>(FrameEstimate::Exact(region_info(*p, info)))
                },
                FrameEstimate::UpperBound(info) => if region_invalid(*p) {
                    r matches Err(e) && e.kind == ErrorKind::InvalidNodeParams
                } else {
                    r == Ok::<FrameEstimate, FlowError>(FrameEstimate::UpperBound(region_info(*p, info)))
                },
                other => r == Ok::<FrameEstimate, FlowError>(other),
            },
    {
        let p = *p;
        let region = |info: FrameInfo| -> (o: Result<FrameInfo, FlowError>)
            requires
                region_fits(p),
            ensures
                region_invalid(p) ==> (o matches Err(e) && e.kind == ErrorKind::InvalidNodeParams),
                !region_invalid(p) ==> o == Ok::<FrameInfo, FlowError>(region_info(p, info)),
        {
            if p.y2 <= p.y1 || p.x2 <= p.x1 {
                Err(FlowError::with_message(ErrorKind::InvalidNodeParams,
                    "Invalid coordinates: they should describe the top-left and bottom-right corners of the region in pixels. Not a rectangle."))
            } else {
                Ok(FrameInfo { w: p.x2 - p.x1, h: p.y2 - p.y1, fmt: info.fmt })
            }
        };
        input.map_frame(region)
    }

    /// What the region node is replaced by: a canvas when the region misses the input, otherwise
    /// a crop to the part on the input followed by margins for the part beyond it.
    /// A region that is not a rectangle is refused with `InvalidNodeParams`.
    pub fn expand(&self, p: &RegionParams, input: FrameInfo) -> (r: Result<RegionPlan, FlowError>)
        requires
            region_fits(*p),
            p.x1 > i32::MIN,
            p.y1 > i32::MIN,
            input.w >= 0,
            input.h >= 0,
        ensures
            region_invalid(*p) ==> (r matches Err(e) && e.kind == ErrorKind::InvalidNodeParams),
            !region_invalid(*p) ==> r == Ok::<RegionPlan, FlowError>(region_plan(*p, input)),
    {
        if p.y2 <= p.y1 || p.x2 <= p.x1 {
            return Err(FlowError::with_message(ErrorKind::InvalidNodeParams,
                "Invalid coordinates: they should describe the top-left and bottom-right corners of the region in pixels. Not a rectangle."));
        }
        if p.x1 >= input.w || p.y1 >= input.h || p.x2 <= 0 || p.y2 <= 0 {
            Ok(RegionPlan::Canvas(CreateCanvasParams {
                w: (p.x2 - p.x1) as usize,
                h: (p.y2 - p.y1) as usize,
                format: input.fmt,
                color: p.background_color,
            }))
        } else {
            let crop = CropParams {
                x1: clamp_to(p.x1, input.w) as u32,
                y1: clamp_to(p.y1, input.h) as u32,
                x2: clamp_to(p.x2, input.w) as u32,
                y2: clamp_to(p.y2, input.h) as u32,
            };
            let expand = ExpandCanvasParams {
                left: positive_part(0 - p.x1) as u32,
                top: positive_part(0 - p.y1) as u32,
                right: positive_part(p.x2 - input.w) as u32,
                bottom: positive_part(p.y2 - input.h) as u32,
                color: p.background_color,
            };
            Ok(RegionPlan::CropThenExpand(crop, expand))
        }
    }
}

/// Takes a region of its input given in percentages of the input's width and height. The
/// percentages are turned into pixel corners by rounding (floating point, done by the caller);
/// the corners then become a `RegionDef` region.
#[derive(Debug, Clone)]
pub struct RegionPercentDef;

/// The pixel corners rounded from percentages, with a far corner that lies before the near one
/// moved to one pixel past it.
pub open spec fn adjusted_coords(x1: i32, y1: i32, x2: i32, y2: i32) -> (i32, i32, i32, i32) {
    (x1, y1, if x2 < x1 { (x1 + 1) as i32 } else { x2 }, if y2 < y1 { (y1 + 1) as i32 } else { y2 })
}

impl RegionPercentDef {
    /// Adjusts the rounded corners `(x1, y1, x2, y2)` as `adjusted_coords` describes.
    pub fn adjust_coords(x1: i32, y1: i32, x2: i32, y2: i32) -> (r: (i32, i32, i32, i32))
        requires
            x2 < x1 ==> x1 < i32::MAX,
            y2 < y1 ==> y1 < i32::MAX,
        ensures
            r == adjusted_coords(x1, y1, x2, y2),
    {
        let x2 = if x2 < x1 { x1 + 1 } else { x2 };
        let y2 = if y2 < y1 { y1 + 1 } else { y2 };
        (x1, y1, x2, y2)
    }

    /// The frame of the region with the adjusted corners `(x1, y1, x2, y2)`, in the input's format.
    pub fn region_frame(info: FrameInfo, coords: (i32, i32, i32, i32)) -> (r: FrameInfo)
        requires
            coords.2 - coords.0 <= i32::MAX,
            coords.3 - coords.1 <= i32::MAX,
            coords.2 - coords.0 >= i32::MIN,
            coords.3 - coords.1 >= i32::MIN,
        ensures
            r == (FrameInfo { w: (coords.2 - coords.0) as i32, h: (coords.3 - coords.1) as i32, fmt: info.fmt }),
    {
        FrameInfo { w: coords.2 - coords.0, h: coords.3 - coords.1, fmt: info.fmt }
    }

    /// The region that the percentage region becomes, from its adjusted corners.
    pub fn region_params(coords: (i32, i32, i32, i32), background_color: Color32) -> (r: RegionParams)
        ensures
            r == (RegionParams { x1: coords.0, y1: coords.1, x2: coords.2, y2: coords.3, background_color }),
    {
        RegionParams { x1: coords.0, y1: coords.1, x2: coords.2, y2: coords.3, background_color }
    }
}

/// `v` limited to `0..=hi`.
fn clamp_to(v: i32, hi: i32) -> (r: i32)
    requires
        hi >= 0,
    ensures
        r == clamp0(v as int, hi as int),
{
    let lo = if v > 0 { v } else { 0 };
    if hi < lo { hi } else { lo }
}

/// `v` when positive, else 0.
fn positive_part(v: i32) -> (r: i32)
    ensures
        r == pos_part(v as int),
{
    if v > 0 { v } else { 0 }
}

/// A region that is a rectangle and overlaps the input is cropped and expanded back to exactly
/// its own size: the crop's size plus the margins is the region's size, and the margins sit
/// where the region reaches beyond the input.
pub proof fn lemma_region_plan_size(p: RegionParams, input: FrameInfo)
    requires
        !region_invalid(p),
        input.w >= 1,
        input.h >= 1,
        !region_misses(p, input.w as int, input.h as int),
    ensures
        region_plan(p, input) matches RegionPlan::CropThenExpand(c, e) && {
            &&& c.x2 - c.x1 + e.left + e.right == p.x2 - p.x1
            &&& c.y2 - c.y1 + e.top + e.bottom == p.y2 - p.y1
            &&& c.x1 < c.x2 && c.y1 < c.y2
            &&& c.x2 <= input.w && c.y2 <= input.h
        },
{
    let w = input.w as int;
    let h = input.h as int;
    let cx1 = clamp0(p.x1 as int, w);
    let cx2 = clamp0(p.x2 as int, w);
    let cy1 = clamp0(p.y1 as int, h);
    let cy2 = clamp0(p.y2 as int, h);
    assert(cx1 as u32 == cx1 && cx2 as u32 == cx2 && cy1 as u32 == cy1 && cy2 as u32 == cy2);
    let l = pos_part(-p.x1);
    let t = pos_part(-p.y1);
    let rt = pos_part(p.x2 - w);
    let b = pos_part(p.y2 - h);
    assert(0 <= l <= 2147483648 && 0 <= t <= 2147483648);
    assert(0 <= rt <= 4294967295 && 0 <= b <= 4294967295);
    assert(l as u32 == l && t as u32 == t && rt as u32 == rt && b as u32 == b);
}

/// The crop is refused whatever the input: a corner does not fit in an `i32`, or the rectangle is empty.
pub open spec fn crop_params_invalid(p: CropParams) -> bool {
    p.x1 > i32::MAX || p.y1 > i32::MAX || p.x2 <= p.x1 || p.y2 <= p.y1
}

/// The cropped frame.
pub open spec fn cropped_info(p: CropParams, info: FrameInfo) -> FrameInfo {
    FrameInfo { w: (p.x2 - p.x1) as i32, h: (p.y2 - p.y1) as i32, fmt: info.fmt }
}

/// Crops its input in place.
#[derive(Debug, Clone)]
pub struct CropMutNodeDef;

impl CropMutNodeDef {
    /// Validates the crop against what is known of the input: refused with `InvalidNodeParams`
    /// when the rectangle is invalid, or does not fit in an input known exactly; the estimate is
    /// the cropped frame for an exactly known input and unknown otherwise.
    pub fn est_validate(&self, p: &CropParams, input_est: FrameEstimate) -> (r: Result<FrameEstimate, FlowError>)
        requires
            input_est matches FrameEstimate::Exact(info) ==> info.w >= 0 && info.h >= 0,
        ensures
            crop_params_invalid(*p) ==> (r matches Err(e) && e.kind == ErrorKind::InvalidNodeParams),
            !crop_params_invalid(*p) ==> match input_est {
                FrameEstimate::Exact(info) => if p.x2 > info.w || p.y2 > info.h {
                    r matches Err(e) && e.kind == ErrorKind::InvalidNodeParams
                } else {
                    r == Ok::<FrameEstimate, FlowError>(FrameEstimate::Exact(cropped_info(*p, info)))
                },
                _ => r == Ok::<FrameEstimate, FlowError>(FrameEstimate::Unknown),
            },
    {
        if p.x1 > 2147483647u32 || p.y1 > 2147483647u32 || p.x2 <= p.x1 || p.y2 <= p.y1 {
            Err(FlowError::with_message(ErrorKind::InvalidNodeParams,
                "Invalid coordinates: they should describe the top-left and bottom-right corners of a rectangle"))
        } else {
            match input_est {
                FrameEstimate::Exact(info) => {
                    if p.x2 > info.w as u32 || p.y2 > info.h as u32 {
                        Err(FlowError::with_message(ErrorKind::InvalidNodeParams, "Crop coordinates invalid for the bitmap"))
                    } else {
                        Ok(FrameEstimate::Exact(FrameInfo {
                            w: p.x2 as i32 - p.x1 as i32,
                            h: p.y2 as i32 - p.y1 as i32,
                            fmt: info.fmt,
                        }))
                    }
                },
                _ => Ok(FrameEstimate::Unknown),
            }
        }
    }

    /// Accepts the crops that are valid whatever the input.
    pub fn validate_params(&self, p: &CropParams) -> (r: Result<(), FlowError>)
        ensures
            r is Ok <==> !crop_params_invalid(*p),
            r matches Err(e) ==> e.kind == ErrorKind::InvalidNodeParams,
    {
        match self.est_validate(p, FrameEstimate::Unknown) {
            Ok(_) => Ok(()),
            Err(e) => Err(e),
        }
    }

    /// Crops the bitmap in place, after validating the crop against it.
    pub fn execute(&self, p: &CropParams, input: &mut Bitmap) -> (r: Result<(), FlowError>)
        requires
            old(input).wf(),
            old(input).spec_w() <= i32::MAX,
            old(input).spec_h() <= i32::MAX,
        ensures
            final(input).wf(),
            r is Err <==> (crop_params_invalid(*p) || p.x2 > old(input).spec_w() || p.y2 > old(input).spec_h()),
            r matches Err(e) ==> e.kind == ErrorKind::InvalidNodeParams,
            r is Err ==> *final(input) == *old(input),
            r is Ok ==> Bitmap::is_crop_of(&*final(input), &*old(input), p.x1, p.y1, p.x2, p.y2),
    {
        let info = input.frame_info();
        match self.est_validate(p, FrameEstimate::Exact(info)) {
            Ok(_) => {},
            Err(e) => return Err(e),
        }
        match input.crop(p.x1, p.y1, p.x2, p.y2) {
            Ok(()) => Ok(()),
            Err(e) => Err(e),
        }
    }
}

/// Copies a rectangle of its input onto its canvas.
#[derive(Debug, Clone)]
pub struct CopyRectNodeDef;

impl CopyRectNodeDef {
    /// Copies the rectangle; coordinates that do not fit are refused with `InvalidNodeParams`
    /// and nothing changes; otherwise the copy does what `copy_rectangle` does.
    pub fn render(&self, canvas: &mut Bitmap, input: &mut Bitmap, p: &CopyRectParams) -> (r: Result<(), FlowError>)
        requires
            copy_rect_accepts(&*old(input), &*old(canvas), p.from_x, p.from_y, p.x, p.y, p.w, p.h),
        ensures
            copy_rect_args_invalid(&*old(input), &*old(canvas), p.from_x, p.from_y, p.x, p.y, p.w, p.h) ==> {
                &&& r matches Err(e) && e.kind == ErrorKind::InvalidNodeParams
                &&& *final(input) == *old(input)
                &&& *final(canvas) == *old(canvas)
            },
            !copy_rect_args_invalid(&*old(input), &*old(canvas), p.from_x, p.from_y, p.x, p.y, p.w, p.h) ==>
                copy_rect_outcome(r, &*old(input), &*final(input), &*old(canvas), &*final(canvas),
                    p.from_x, p.from_y, p.x, p.y, p.w, p.h),
    {
        if input.w() as u64 <= p.from_x as u64 || input.h() as u64 <= p.from_y as u64
            || (input.w() as u64) < p.from_x as u64 + p.w as u64
            || (input.h() as u64) < p.from_y as u64 + p.h as u64
            || (canvas.w() as u64) < p.x as u64 + p.w as u64
            || (canvas.h() as u64) < p.y as u64 + p.h as u64 {
            return Err(FlowError::with_message(ErrorKind::InvalidNodeParams, "Invalid coordinates for the canvas and input"));
        }
        copy_rectangle(input, canvas, p.from_x, p.from_y, p.x, p.y, p.w, p.h)
    }
}

/// Parameters of a node that fills a rectangle with a color.
#[derive(Copy, Clone, Debug, PartialEq, Eq, Structural)]
pub struct FillRectParams {
    pub x1: u32,
    pub y1: u32,
    pub x2: u32,
    pub y2: u32,
    pub color: Color32,
}

/// The rectangle to fill is empty, has a corner beyond `i32`, or does not fit in a `w` by `h` bitmap.
pub open spec fn fill_params_invalid(p: FillRectParams, w: int, h: int) -> bool {
    p.x2 <= p.x1 || p.y2 <= p.y1 || p.x1 > i32::MAX || p.y1 > i32::MAX || p.x2 > w || p.y2 > h
}

/// Fills a rectangle of its input with a color.
#[derive(Debug, Clone)]
pub struct FillRectNodeDef;

impl FillRectNodeDef {
    /// Fills the rectangle: invalid coordinates are refused with `InvalidCoordinates` and nothing
    /// changes; otherwise the bitmap is set to blend with itself and filled as
    /// `flow_bitmap_bgra_fill_rect` fills it, which refuses one-byte pixels.
    pub fn mutate(&self, bitmap: &mut Bitmap, p: &FillRectParams) -> (r: Result<(), FlowError>)
        requires
            old(bitmap).wf(),
        ensures
            final(bitmap).wf(),
            fill_params_invalid(*p, old(bitmap).spec_w() as int, old(bitmap).spec_h() as int) ==> {
                &&& r matches Err(e) && e.kind == ErrorKind::InvalidCoordinates
                &&& *final(bitmap) == *old(bitmap)
            },
            !fill_params_invalid(*p, old(bitmap).spec_w() as int, old(bitmap).spec_h() as int) ==> {
                &&& final(bitmap).spec_info()
                    == (SurfaceInfo { compose: BitmapCompositing::BlendWithSelf, ..old(bitmap).spec_info() })
                &&& final(bitmap).spec_w() == old(bitmap).spec_w()
                &&& final(bitmap).spec_h() == old(bitmap).spec_h()
                &&& final(bitmap).spec_stride() == old(bitmap).spec_stride()
                &&& final(bitmap).spec_bpp() == old(bitmap).spec_bpp()
                &&& final(bitmap).spec_offset() == old(bitmap).spec_offset()
                &&& final(bitmap).spec_cropped() == old(bitmap).spec_cropped()
                &&& (r is Err <==> old(bitmap).spec_bpp() == 1)
                &&& r matches Err(e) ==> e.kind == ErrorKind::InvalidArgument
                &&& r is Err ==> final(bitmap).spec_bytes() == old(bitmap).spec_bytes()
                &&& r is Ok ==> forall|i: int| 0 <= i < old(bitmap).spec_bytes().len()
                    && !old(bitmap).in_rect(i, p.x1 as int, p.x2 as int, p.y1 as int, p.y2 as int)
                    ==> #[trigger] final(bitmap).spec_bytes()[i] == old(bitmap).spec_bytes()[i]
                &&& r is Ok ==> forall|x: int, y: int, c: int| p.x1 <= x < p.x2 && p.y1 <= y < p.y2 && 0 <= c < old(bitmap).spec_bpp()
                    ==> #[trigger] final(bitmap).byte_at(x, y, c) == color_byte(p.color.0, c)
            },
    {
        if p.x2 <= p.x1 || p.y2 <= p.y1 || p.x1 > 2147483647u32 || p.y1 > 2147483647u32
            || p.x2 > bitmap.w() || p.y2 > bitmap.h() {
            return Err(FlowError::with_message(ErrorKind::InvalidCoordinates, "Invalid coordinates for the bitmap"));
        }
        bitmap.set_compositing(BitmapCompositing::BlendWithSelf);
        flow_bitmap_bgra_fill_rect(bitmap, p.x1, p.y1, p.x2, p.y2, p.color.0)
    }
}

/// Marks the bottom-right corner of its input with a red dot.
#[derive(Debug, Clone)]
pub struct WatermarkRedDotDef;

impl WatermarkRedDotDef {
    /// On an input larger than 3 by 3 pixels, the 3 by 3 pixels at the bottom-right corner are
    /// filled with opaque red; a smaller input gets no dot.
    pub fn expand(&self, input: FrameInfo) -> (r: Option<FillRectParams>)
        ensures
            input.w > 3 && input.h > 3 ==> r == Some(FillRectParams {
                x1: (input.w - 3) as u32, y1: (input.h - 3) as u32, x2: input.w as u32, y2: input.h as u32,
                color: Color32(0xFFFF0000u32),
            }),
            !(input.w > 3 && input.h > 3) ==> r is None,
    {
        if input.w > 3 && input.h > 3 {
            Some(FillRectParams {
                x1: (input.w - 3) as u32,
                y1: (input.h - 3) as u32,
                x2: input.w as u32,
                y2: input.h as u32,
                color: Color32(0xFFFF0000u32),
            })
        } else {
            None
        }
    }
}

/// What enabling transparency does to a frame of a given format.
#[derive(Copy, Clone, Debug, PartialEq, Eq, Structural)]
pub enum TransparencyPlan {
    /// The frame already has meaningful alpha: the node is removed.
    Remove,
    /// The frame is BGRA with unused alpha: the alpha is made meaningful in place.
    MutateInPlace,
    /// The frame has no alpha channel: it is copied onto a transparent BGRA canvas.
    CopyToCanvas(CanvasCopyPlan),
}

/// Gives its input a meaningful alpha channel.
#[derive(Debug, Clone)]
pub struct EnableTransparencyDef;

impl EnableTransparencyDef {
    /// What the node is replaced by. The canvas for a frame without alpha is created with the
    /// frame's width and height exchanged, as it always has been.
    pub fn expand(&self, parent: FrameInfo) -> (r: TransparencyPlan)
        requires
            parent.w >= 0,
            parent.h >= 0,
        ensures
            parent.fmt == PixelFormat::Bgra32 ==> r == TransparencyPlan::Remove,
            parent.fmt == PixelFormat::Bgr32 ==> r == TransparencyPlan::MutateInPlace,
            parent.fmt != PixelFormat::Bgra32 && parent.fmt != PixelFormat::Bgr32 ==> r == TransparencyPlan::CopyToCanvas(CanvasCopyPlan {
                canvas: CreateCanvasParams { w: parent.h as usize, h: parent.w as usize, format: PixelFormat::Bgra32, color: Color32(0) },
                copy: CopyRectParams { from_x: 0, from_y: 0, w: parent.w as u32, h: parent.h as u32, x: 0, y: 0 },
            }),
    {
        if parent.fmt == PixelFormat::Bgra32 {
            TransparencyPlan::Remove
        } else if parent.fmt == PixelFormat::Bgr32 {
            TransparencyPlan::MutateInPlace
        } else {
            TransparencyPlan::CopyToCanvas(CanvasCopyPlan {
                canvas: CreateCanvasParams { w: parent.h as usize, h: parent.w as usize, format: PixelFormat::Bgra32, color: Color32(0) },
                copy: CopyRectParams { from_x: 0, from_y: 0, w: parent.w as u32, h: parent.h as u32, x: 0, y: 0 },
            })
        }
    }
}

/// Makes the unused alpha of a BGRA bitmap meaningful, in place.
#[derive(Debug, Clone)]
pub struct EnableTransparencyMutDef;

impl EnableTransparencyMutDef {
    /// A BGRA bitmap with unused alpha gets every alpha byte set to 255, its alpha marked
    /// meaningful and its compositing set to blend with itself; any other bitmap is refused with
    /// `InvalidNodeConnections` and left as it is.
    pub fn mutate(&self, bitmap: &mut Bitmap) -> (r: Result<(), FlowError>)
        requires
            old(bitmap).wf(),
        ensures
            final(bitmap).wf(),
            r is Ok <==> old(bitmap).spec_format() == PixelFormat::Bgr32,
            r matches Err(e) ==> e.kind == ErrorKind::InvalidNodeConnections,
            r is Err ==> *final(bitmap) == *old(bitmap),
            r is Ok ==> {
                &&& final(bitmap).spec_info() == (SurfaceInfo {
                    alpha_meaningful: true,
                    compose: BitmapCompositing::BlendWithSelf,
                    ..old(bitmap).spec_info()
                })
                &&& final(bitmap).spec_w() == old(bitmap).spec_w()
                &&& final(bitmap).spec_h() == old(bitmap).spec_h()
                &&& final(bitmap).spec_stride() == old(bitmap).spec_stride()
                &&& final(bitmap).spec_bpp() == old(bitmap).spec_bpp()
                &&& final(bitmap).spec_offset() == old(bitmap).spec_offset()
                &&& final(bitmap).spec_cropped() == old(bitmap).spec_cropped()
                &&& final(bitmap).spec_bytes().len() == old(bitmap).spec_bytes().len()
                &&& alpha_filled_bytes(&*final(bitmap), &*old(bitmap))
            },
    {
        let info = bitmap.info();
        if info.info.pixel_layout == PixelLayout::BGRA && !info.info.alpha_meaningful {
            match bitmap.set_alpha_to_255() {
                Ok(()) => {},
                Err(e) => return Err(e),
            }
            let ghost mid = *bitmap;
            bitmap.set_alpha_meaningful(true);
            bitmap.set_compositing(BitmapCompositing::BlendWithSelf);
            proof {
                assert forall|x: int, y: int, c: int|
                    0 <= x < old(bitmap).spec_w() && 0 <= y < old(bitmap).spec_h() && 0 <= c < old(bitmap).spec_bpp()
                    implies #[trigger] bitmap.byte_at(x, y, c) == (if c == 3 { 255u8 } else { old(bitmap).byte_at(x, y, c) }) by {
                    assert(mid.byte_at(x, y, c) == (if c == 3 { 255u8 } else { old(bitmap).byte_at(x, y, c) }));
                }
            }
            Ok(())
        } else {
            Err(FlowError::with_message(ErrorKind::InvalidNodeConnections, "Need Bgr32 input image to convert to bgra32"))
        }
    }
}

/// Crops its input to its content, found by the absence of edges around it.
#[derive(Debug, Clone)]
pub struct CropWhitespaceDef;

impl CropWhitespaceDef {
    /// The frame cannot be estimated before the content is found.
    pub fn estimate(&self) -> (r: Result<FrameEstimate, FlowError>)
        ensures
            r == Ok::<FrameEstimate, FlowError>(FrameEstimate::Impossible),
    {
        Ok(FrameEstimate::Impossible)
    }

    /// The crop of a `w` by `h` bitmap to the content `rect`, widened by `padding` pixels on every
    /// side within the bitmap. An empty content rectangle is refused with `InvalidState`.
    pub fn crop_for_content(&self, rect: RectCorners, padding: i64, w: u32, h: u32) -> (r: Result<CropParams, FlowError>)
        requires
            i64::MIN + u32::MAX <= padding <= i64::MAX - u32::MAX,
        ensures
            (rect.x2 <= rect.x1 || rect.y2 <= rect.y1) ==> (r matches Err(e) && e.kind == ErrorKind::InvalidState),
            !(rect.x2 <= rect.x1 || rect.y2 <= rect.y1) ==> r == Ok::<CropParams, FlowError>(CropParams {
                x1: max_int(0, rect.x1 - padding) as u32,
                y1: max_int(0, rect.y1 - padding) as u32,
                x2: min_int(w as int, rect.x2 + padding) as u32,
                y2: min_int(h as int, rect.y2 + padding) as u32,
            }),
    {
        if rect.x2 <= rect.x1 || rect.y2 <= rect.y1 {
            return Err(FlowError::with_message(ErrorKind::InvalidState, "Whitespace detection returned invalid rectangle"));
        }
        let x1 = rect.x1 as i64 - padding;
        let y1 = rect.y1 as i64 - padding;
        let x2 = rect.x2 as i64 + padding;
        let y2 = rect.y2 as i64 + padding;
        Ok(CropParams {
            x1: (if x1 > 0 { x1 } else { 0 }) as u32,
            y1: (if y1 > 0 { y1 } else { 0 }) as u32,
            x2: (if (w as i64) < x2 { w as i64 } else { x2 }) as u32,
            y2: (if (h as i64) < y2 { h as i64 } else { y2 }) as u32,
        })
    }
}

/// The smaller of two integers.
pub open spec fn min_int(a: int, b: int) -> int {
    if a <= b { a } else { b }
}

/// The larger of two integers.
pub open spec fn max_int(a: int, b: int) -> int {
    if a >= b { a } else { b }
}

} // verus!

verus! {

/// Rounds the corners of its input; where the background is not opaque, the input is made
/// transparent first.
#[derive(Debug, Clone)]
pub struct RoundImageCorners;

impl RoundImageCorners {
    /// Whether the node becomes an enabling of transparency followed by the rounding (else the
    /// rounding alone): when the background color is not opaque.
    pub fn expand(&self, background_color: Color32) -> (r: bool)
        ensures
            r == !color_is_opaque(background_color),
    {
        !background_color.is_opaque()
    }
}

/// Margins, in pixels, that a watermark must keep from the image's edges.
#[derive(Debug, Copy, Clone, PartialEq, Eq, Structural)]
pub struct WatermarkMargins {
    pub left: u32,
    pub top: u32,
    pub right: u32,
    pub bottom: u32,
}

/// The box a watermark is fitted into on a `w` by `h` image, as corners: the whole image when
/// there are no margins; the image less the margins when they leave at least one pixel each way;
/// otherwise none, and the watermark is not drawn.
pub open spec fn margins_box(w: u32, h: u32, margins: Option<WatermarkMargins>) -> Option<(i32, i32, i32, i32)> {
    match margins {
        None => Some((0i32, 0i32, w as i32, h as i32)),
        Some(m) => if m.left + m.right < w && m.top + m.bottom < h {
            Some((m.left as i32, m.top as i32, (w as i32 - m.right as i32) as i32, (h as i32 - m.bottom as i32) as i32))
        } else {
            None
        },
    }
}

/// Draws an image over its input, fitted into a box.
#[derive(Debug, Clone)]
pub struct WatermarkDef;

impl WatermarkDef {
    /// The box a watermark is fitted into, as `margins_box` describes it.
    pub fn margins_bounding_box(w: u32, h: u32, margins: Option<WatermarkMargins>) -> (r: Option<(i32, i32, i32, i32)>)
        requires
            margins matches Some(m) ==> m.left + m.right <= u32::MAX && m.top + m.bottom <= u32::MAX
                && i32::MIN <= w as i32 - m.right as i32 <= i32::MAX
                && i32::MIN <= h as i32 - m.bottom as i32 <= i32::MAX,
        ensures
            r == margins_box(w, h, margins),
    {
        match margins {
            None => Some((0, 0, w as i32, h as i32)),
            Some(m) => if m.left + m.right < w && m.top + m.bottom < h {
                Some((m.left as i32, m.top as i32, w as i32 - m.right as i32, h as i32 - m.bottom as i32))
            } else {
                None
            },
        }
    }
}

} // verus!
