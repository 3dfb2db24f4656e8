//! The decisions of the scaling nodes: whether a scale node resamples at all, what it becomes,
//! and how a draw onto a canvas is checked and set up. The sharpening amount is a floating-point
//! hint; these decisions take only whether it is zero.
use vstd::prelude::*;
use crate::errors::ErrorKind;
use crate::flow_error::FlowError;
use crate::flow::definitions::{FrameEstimate, FrameInfo};
use crate::flow::nodes::CreateCanvasParams;
use crate::graphics::bitmaps::{Bitmap, BitmapCompositing, Color32, PixelFormat};

verus! {

/// When a scale node resamples.
#[derive(Debug, Copy, Clone, PartialEq, Eq, Structural)]
pub enum ResampleWhen {
    SizeDiffers,
    SizeDiffersOrSharpeningRequested,
    Always,
}

/// When the sharpening hint applies.
#[derive(Debug, Copy, Clone, PartialEq, Eq, Structural)]
pub enum SharpenWhen {
    Downscaling,
    Upscaling,
    SizeDiffers,
    Always,
}

/// A `w` by `h` target is smaller than the source in some dimension.
pub open spec fn downscaling(w: int, h: int, from_w: int, from_h: int) -> bool {
    w < from_w || h < from_h
}

/// A `w` by `h` target is larger than the source in some dimension.
pub open spec fn upscaling(w: int, h: int, from_w: int, from_h: int) -> bool {
    w > from_w || h > from_h
}

/// A `w` by `h` target differs from the source in some dimension.
pub open spec fn size_differs(w: int, h: int, from_w: int, from_h: int) -> bool {
    w != from_w || h != from_h
}

/// The sharpening hint applies to scaling `from_w` by `from_h` to `w` by `h` (always, when no
/// condition is given).
pub open spec fn sharpen_applies(when: Option<SharpenWhen>, w: int, h: int, from_w: int, from_h: int) -> bool {
    match when {
        None | Some(SharpenWhen::Always) => true,
        Some(SharpenWhen::Downscaling) => downscaling(w, h, from_w, from_h),
        Some(SharpenWhen::Upscaling) => upscaling(w, h, from_w, from_h),
        Some(SharpenWhen::SizeDiffers) => size_differs(w, h, from_w, from_h),
    }
}

/// How the sharpening conditions relate, for every source and target size: a conditional hint
/// never applies to a scale that keeps the size; "size differs" applies exactly when the scale
/// shrinks or grows the image in some dimension, so in particular to every downscale and every
/// upscale; a downscale from one size to another is an upscale back; and whether the size
/// differs does not depend on which of the two sizes is the source.
pub proof fn lemma_sharpen_conditions(w: int, h: int, from_w: int, from_h: int)
    ensures
        !sharpen_applies(Some(SharpenWhen::Downscaling), w, h, w, h),
        !sharpen_applies(Some(SharpenWhen::Upscaling), w, h, w, h),
        !sharpen_applies(Some(SharpenWhen::SizeDiffers), w, h, w, h),
        sharpen_applies(Some(SharpenWhen::SizeDiffers), w, h, from_w, from_h)
            == (sharpen_applies(Some(SharpenWhen::Downscaling), w, h, from_w, from_h)
                || sharpen_applies(Some(SharpenWhen::Upscaling), w, h, from_w, from_h)),
        (w < from_w || h < from_h) ==> sharpen_applies(Some(SharpenWhen::Downscaling), w, h, from_w, from_h)
            && sharpen_applies(Some(SharpenWhen::SizeDiffers), w, h, from_w, from_h),
        (w > from_w || h > from_h) ==> sharpen_applies(Some(SharpenWhen::Upscaling), w, h, from_w, from_h)
            && sharpen_applies(Some(SharpenWhen::SizeDiffers), w, h, from_w, from_h),
        sharpen_applies(Some(SharpenWhen::Downscaling), w, h, from_w, from_h)
            == sharpen_applies(Some(SharpenWhen::Upscaling), from_w, from_h, w, h),
        sharpen_applies(Some(SharpenWhen::SizeDiffers), w, h, from_w, from_h)
            == sharpen_applies(Some(SharpenWhen::SizeDiffers), from_w, from_h, w, h),
        sharpen_applies(None, w, h, from_w, from_h) && sharpen_applies(Some(SharpenWhen::Always), w, h, from_w, from_h),
{
}

/// A scale that resamples keeps its sharpening exactly when the hint's condition holds between
/// the parent's size and the target size; a downscale with "size differs" keeps it.
pub proof fn lemma_scale_plan_keeps_sharpening(w: u32, h: u32, resample_when: Option<ResampleWhen>,
    sharpen_nonzero: bool, background: Color32, parent: FrameInfo)
    requires
        (w as int) < parent.w as u32 as int || (h as int) < parent.h as u32 as int,
    ensures
        scale_plan(w, h, resample_when, Some(SharpenWhen::SizeDiffers), sharpen_nonzero, background, parent)
            matches Some(p) && p.keep_sharpening,
{
}

/// Whether the sharpening hint applies, as `sharpen_applies` describes it.
pub fn sharpen_applies_to(when: Option<SharpenWhen>, w: u32, h: u32, from_w: u32, from_h: u32) -> (r: bool)
    ensures
        r == sharpen_applies(when, w as int, h as int, from_w as int, from_h as int),
{
    match when {
        None | Some(SharpenWhen::Always) => true,
        Some(SharpenWhen::Downscaling) => w < from_w || h < from_h,
        Some(SharpenWhen::Upscaling) => w > from_w || h > from_h,
        Some(SharpenWhen::SizeDiffers) => w != from_w || h != from_h,
    }
}

/// The scale node resamples: always; when the size differs; or (by default) when the size
/// differs or sharpening is requested, which it is when the hint applies and is not zero.
pub open spec fn resamples(when: Option<ResampleWhen>, differs: bool, sharpen_requested: bool) -> bool {
    match when {
        Some(ResampleWhen::Always) => true,
        Some(ResampleWhen::SizeDiffers) => differs,
        None | Some(ResampleWhen::SizeDiffersOrSharpeningRequested) => differs || sharpen_requested,
    }
}

/// What a scale node to `w` by `h` becomes when it resamples: a canvas of that size in the
/// parent's format, filled with the background color, drawn onto with the given sharpening
/// (kept where it applies, zero otherwise).
#[derive(Debug, Copy, Clone, PartialEq, Eq, Structural)]
pub struct ScalePlan {
    pub canvas: CreateCanvasParams,
    pub keep_sharpening: bool,
}

/// The plan of a scale node to `w` by `h` of a `parent` frame, or None when it is removed.
pub open spec fn scale_plan(w: u32, h: u32, resample_when: Option<ResampleWhen>, sharpen_when: Option<SharpenWhen>,
    sharpen_nonzero: bool, background: Color32, parent: FrameInfo) -> Option<ScalePlan> {
    let pw = parent.w as u32 as int;
    let ph = parent.h as u32 as int;
    let keep = sharpen_applies(sharpen_when, w as int, h as int, pw, ph);
    if resamples(resample_when, size_differs(w as int, h as int, pw, ph), keep && sharpen_nonzero) {
        Some(ScalePlan {
            canvas: CreateCanvasParams { w: w as usize, h: h as usize, format: parent.fmt, color: background },
            keep_sharpening: keep,
        })
    } else {
        None
    }
}

/// Scales its input to a given size.
#[derive(Debug, Clone)]
pub struct ScaleDef;

impl ScaleDef {
    /// The estimate of a scale to `w` by `h`: that size, in the input's format.
    pub fn estimate(&self, w: u32, h: u32, input: FrameEstimate) -> (r: Result<FrameEstimate, FlowError>)
        ensures
            match input {
                FrameEstimate::Exact(info) => r == Ok::<FrameEstimate, FlowError>(
                    FrameEstimate::Exact(FrameInfo { w: w as i32, h: h as i32, fmt: info.fmt })),
                FrameEstimate::UpperBound(info) => r == Ok::<FrameEstimate, FlowError>(
                    FrameEstimate::UpperBound(FrameInfo { w: w as i32, h: h as i32, fmt: info.fmt })),
                other => r == Ok::<FrameEstimate, FlowError>(other),
            },
    {
        let scaled = |info: FrameInfo| -> (o: Result<FrameInfo, FlowError>)
            ensures
                o == Ok::<FrameInfo, FlowError>(FrameInfo { w: w as i32, h: h as i32, fmt: info.fmt }),
        {
            Ok(FrameInfo { w: w as i32, h: h as i32, fmt: info.fmt })
        };
        input.map_frame(scaled)
    }

    /// What the scale node to `w` by `h` of a `parent` frame becomes, as `scale_plan` describes
    /// it; `sharpen_nonzero` tells whether the sharpening hint is other than zero.
    pub fn expand(&self, w: u32, h: u32, resample_when: Option<ResampleWhen>, sharpen_when: Option<SharpenWhen>,
        sharpen_nonzero: bool, background: Color32, parent: FrameInfo) -> (r: Option<ScalePlan>)
        ensures
            r == scale_plan(w, h, resample_when, sharpen_when, sharpen_nonzero, background, parent),
    {
        let pw = parent.w as u32;
        let ph = parent.h as u32;
        let differs = w != pw || h != ph;
        let keep = sharpen_applies_to(sharpen_when, w, h, pw, ph);
        let sharpen_requested = keep && sharpen_nonzero;
        let resample = match resample_when {
            Some(ResampleWhen::Always) => true,
            Some(ResampleWhen::SizeDiffers) => differs,
            None | Some(ResampleWhen::SizeDiffersOrSharpeningRequested) => differs || sharpen_requested,
        };
        if resample {
            Some(ScalePlan {
                canvas: CreateCanvasParams { w: w as usize, h: h as usize, format: parent.fmt, color: background },
                keep_sharpening: keep,
            })
        } else {
            None
        }
    }
}

/// The color is fully transparent (alpha 0).
pub open spec fn color_is_transparent(c: Color32) -> bool {
    c.0 / 16777216 == 0
}

/// A draw of the whole input onto the rectangle `x, y, w, h` of a canvas; `overwrite` replaces
/// the canvas's pixels instead of composing onto them.
#[derive(Debug, Copy, Clone, PartialEq, Eq, Structural)]
pub struct DrawImageParams {
    pub x: u32,
    pub y: u32,
    pub w: u32,
    pub h: u32,
    pub overwrite: bool,
}

/// Both frames have 4 bytes per pixel.
pub open spec fn both_four_bytes(a: PixelFormat, b: PixelFormat) -> bool {
    a.spec_bytes() == 4 && b.spec_bytes() == 4
}

/// A node that already has a canvas accepts no resampling condition other than `Always`.
pub open spec fn honors_canvas(when: Option<ResampleWhen>) -> bool {
    when is None || when == Some(ResampleWhen::Always)
}

/// Scales its input onto a canvas of the target size.
#[derive(Debug, Clone)]
pub struct Scale2dDef;

impl Scale2dDef {
    /// What the node becomes: a draw of the input onto the whole canvas, overwriting it when the
    /// background is transparent. A target size other than the canvas's is refused with
    /// `InvalidNodeParams`, frames without 4 bytes per pixel with `InvalidNodeConnections`, and a
    /// resampling condition other than `Always` with `InvalidNodeParams`.
    pub fn expand(&self, w: u32, h: u32, resample_when: Option<ResampleWhen>, background: Color32,
        input: FrameInfo, canvas: FrameInfo) -> (r: Result<DrawImageParams, FlowError>)
        ensures
            (w != canvas.w as u32 || h != canvas.h as u32) ==> (r matches Err(e) && e.kind == ErrorKind::InvalidNodeParams),
            (w == canvas.w as u32 && h == canvas.h as u32 && !both_four_bytes(input.fmt, canvas.fmt))
                ==> (r matches Err(e) && e.kind == ErrorKind::InvalidNodeConnections),
            (w == canvas.w as u32 && h == canvas.h as u32 && both_four_bytes(input.fmt, canvas.fmt)
                && !honors_canvas(resample_when)) ==> (r matches Err(e) && e.kind == ErrorKind::InvalidNodeParams),
            (w == canvas.w as u32 && h == canvas.h as u32 && both_four_bytes(input.fmt, canvas.fmt)
                && honors_canvas(resample_when)) ==> r == Ok::<DrawImageParams, FlowError>(DrawImageParams {
                    x: 0, y: 0, w: canvas.w as u32, h: canvas.h as u32, overwrite: color_is_transparent(background),
                }),
    {
        if w != canvas.w as u32 || h != canvas.h as u32 {
            return Err(FlowError::with_message(ErrorKind::InvalidNodeParams, "Resample2D target size does not match canvas size."));
        }
        if input.fmt.bytes() != 4 || canvas.fmt.bytes() != 4 {
            return Err(FlowError::with_message(ErrorKind::InvalidNodeConnections,
                "Resample2D can only operate on Rgb32 and Rgba32 bitmaps."));
        }
        match resample_when {
            Some(ResampleWhen::Always) | None => {},
            _ => {
                return Err(FlowError::with_message(ErrorKind::InvalidNodeParams,
                    "Resample2D already has a canvas and cannot honor a ResampleWhen value other than Always."));
            },
        }
        Ok(DrawImageParams { x: 0, y: 0, w: canvas.w as u32, h: canvas.h as u32, overwrite: background.0 / 16777216 == 0 })
    }
}

/// How a draw is carried out: with the upscaling filter (else the downscaling one), and with the
/// sharpening hint kept (else zero).
#[derive(Debug, Copy, Clone, PartialEq, Eq, Structural)]
pub struct DrawPlan {
    pub use_up_filter: bool,
    pub keep_sharpening: bool,
}

/// The canvas's compositing once a draw is set up: a canvas that replaces itself starts blending
/// with itself when the draw composes; a BGRA canvas blended with a matte is replaced when the
/// draw does not compose.
pub open spec fn draw_compositing(c: BitmapCompositing, compose: bool, fmt: PixelFormat) -> BitmapCompositing {
    if c == BitmapCompositing::ReplaceSelf && compose {
        BitmapCompositing::BlendWithSelf
    } else if c is BlendWithMatte && !compose && fmt == PixelFormat::Bgra32 {
        BitmapCompositing::ReplaceSelf
    } else {
        c
    }
}

/// Draws its input, scaled, onto a rectangle of a canvas.
#[derive(Debug, Clone)]
pub struct DrawImageDef;

impl DrawImageDef {
    /// Checks a draw of `input` onto the rectangle `x, y, w, h` of `canvas` and sets it up: a
    /// rectangle beyond the canvas is refused with `InvalidNodeParams`, bitmaps without 4 bytes
    /// per pixel with `InvalidNodeConnections`, a resampling condition other than `Always` with
    /// `InvalidNodeParams`, and nothing changes then. Otherwise the canvas's compositing becomes
    /// `draw_compositing` (nothing else of it changes) and the plan says which filter and whether
    /// sharpening applies; `compose` tells whether the draw composes onto the canvas.
    pub fn prepare(&self, canvas: &mut Bitmap, input: &Bitmap, x: u32, y: u32, w: u32, h: u32,
        resample_when: Option<ResampleWhen>, sharpen_when: Option<SharpenWhen>, compose: bool) -> (r: Result<DrawPlan, FlowError>)
        requires
            x + w <= u32::MAX,
            y + h <= u32::MAX,
        ensures
            (x + w > old(canvas).spec_w() || y + h > old(canvas).spec_h()) ==>
                (r matches Err(e) && e.kind == ErrorKind::InvalidNodeParams),
            !(x + w > old(canvas).spec_w() || y + h > old(canvas).spec_h())
                && !both_four_bytes(input.spec_format(), old(canvas).spec_format()) ==>
                (r matches Err(e) && e.kind == ErrorKind::InvalidNodeConnections),
            !(x + w > old(canvas).spec_w() || y + h > old(canvas).spec_h())
                && both_four_bytes(input.spec_format(), old(canvas).spec_format())
                && !honors_canvas(resample_when) ==> (r matches Err(e) && e.kind == ErrorKind::InvalidNodeParams),
            r is Err ==> *final(canvas) == *old(canvas),
            r is Ok ==> {
                &&& !(x + w > old(canvas).spec_w() || y + h > old(canvas).spec_h())
                &&& both_four_bytes(input.spec_format(), old(canvas).spec_format())
                &&& honors_canvas(resample_when)
                &&& r == Ok::<DrawPlan, FlowError>(DrawPlan {
                    use_up_filter: upscaling(w as int, h as int, input.spec_w() as int, input.spec_h() as int),
                    keep_sharpening: sharpen_applies(sharpen_when, w as int, h as int, input.spec_w() as int,
                        input.spec_h() as int),
                })
                &&& final(canvas).spec_info() == (crate::graphics::bitmaps::SurfaceInfo {
                    compose: draw_compositing(old(canvas).spec_info().compose, compose, old(canvas).spec_format()),
                    ..old(canvas).spec_info()
                })
                &&& final(canvas).spec_bytes() == old(canvas).spec_bytes()
                &&& final(canvas).spec_w() == old(canvas).spec_w()
                &&& final(canvas).spec_h() == old(canvas).spec_h()
                &&& final(canvas).spec_stride() == old(canvas).spec_stride()
                &&& final(canvas).spec_bpp() == old(canvas).spec_bpp()
                &&& final(canvas).spec_offset() == old(canvas).spec_offset()
                &&& final(canvas).spec_cropped() == old(canvas).spec_cropped()
            },
    {
        if x + w > canvas.w() || y + h > canvas.h() {
            return Err(FlowError::with_message(ErrorKind::InvalidNodeParams, "DrawImageExact target rect does not fit the canvas."));
        }
        let in_fmt = input.frame_info().fmt;
        let canvas_fmt = canvas.frame_info().fmt;
        if in_fmt.bytes() != 4 || canvas_fmt.bytes() != 4 {
            return Err(FlowError::with_message(ErrorKind::InvalidNodeConnections,
                "DrawImageExact can only operate on Rgb32 and Rgba32 bitmaps."));
        }
        match resample_when {
            Some(ResampleWhen::Always) | None => {},
            _ => {
                return Err(FlowError::with_message(ErrorKind::InvalidNodeParams,
                    "DrawImageExact already has a canvas and cannot honor a ResampleWhen value other than Always."));
            },
        }
        let iw = input.w();
        let ih = input.h();
        let use_up_filter = w > iw || h > ih;
        let keep_sharpening = sharpen_applies_to(sharpen_when, w, h, iw, ih);
        let current = *canvas.info().surface_info().compose();
        let replace_self = match current {
            BitmapCompositing::ReplaceSelf => true,
            _ => false,
        };
        let with_matte = match current {
            BitmapCompositing::BlendWithMatte(_) => true,
            _ => false,
        };
        if replace_self && compose {
            canvas.set_compositing(BitmapCompositing::BlendWithSelf);
        } else if with_matte && !compose && canvas_fmt == PixelFormat::Bgra32 {
            canvas.set_compositing(BitmapCompositing::ReplaceSelf);
        } else {
            canvas.set_compositing(current);
        }
        Ok(DrawPlan { use_up_filter, keep_sharpening })
    }
}

} // verus!
