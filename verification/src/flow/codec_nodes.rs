//! The node definitions at the edges of a job: decoders, encoders and a bitmap handed in by
//! pointer. What they read and write goes through codecs and the caller's memory; what stands
//! here is what they decide: their edges, their estimates, the orientation node a decoder adds,
//! the commands it passes on, and the frame-size limits of a job.
use vstd::prelude::*;
use crate::context::FrameSizeBounds;
use crate::errors::ErrorKind;
use crate::flow_error::FlowError;
use crate::flow::definitions::{FrameEstimate, FrameInfo};
use crate::flow::engine::{EdgesIn, EdgesOut};
use crate::graphics::bitmaps::{Bitmap, BitmapCompositing, PixelFormat, SurfaceInfo};

verus! {

/// The frame an estimate speaks of, exactly or as an upper bound.
pub open spec fn estimated_info(e: FrameEstimate) -> Option<FrameInfo> {
    match e {
        FrameEstimate::Exact(info) => Some(info),
        FrameEstimate::UpperBound(info) => Some(info),
        _ => None,
    }
}

/// A limit that does not fit in an `i32`, or a frame wider or taller than the limit.
pub open spec fn frame_exceeds(info: FrameInfo, limit: FrameSizeBounds) -> bool {
    ||| limit.w >= 0x8000_0000
    ||| limit.h >= 0x8000_0000
    ||| info.w > limit.w
    ||| info.h > limit.h
}

/// Checks the width and height of an estimated frame against a job's limit. With no limit, or
/// nothing known of the frame, there is nothing to check: `Ok(None)`. A limit beyond `i32`, or a
/// frame wider or taller than it, is `SizeLimitExceeded`. Otherwise the frame is returned, so that
/// the caller compares its megapixels with the limit's.
pub fn validate_frame_dimensions(est: FrameEstimate, limit: Option<FrameSizeBounds>) -> (r: Result<Option<FrameInfo>, FlowError>)
    ensures
        (limit is None || estimated_info(est) is None) ==> r == Ok::<Option<FrameInfo>, FlowError>(None),
        limit matches Some(l) ==> (estimated_info(est) matches Some(info) ==> {
            &&& frame_exceeds(info, l) ==> (r matches Err(e) && e.kind == ErrorKind::SizeLimitExceeded)
            &&& !frame_exceeds(info, l) ==> r == Ok::<Option<FrameInfo>, FlowError>(Some(info))
        }),
{
    let l = match limit {
        Some(l) => l,
        None => return Ok(None),
    };
    let info = match est {
        FrameEstimate::Exact(info) => info,
        FrameEstimate::UpperBound(info) => info,
        _ => return Ok(None),
    };
    if l.w >= 0x8000_0000 || l.h >= 0x8000_0000 {
        return Err(FlowError::with_message(ErrorKind::SizeLimitExceeded, "frame size limit values overflow an i32"));
    }
    if info.w > l.w as i32 {
        return Err(FlowError::with_message(ErrorKind::SizeLimitExceeded, "frame width exceeds the size limit"));
    }
    if info.h > l.h as i32 {
        return Err(FlowError::with_message(ErrorKind::SizeLimitExceeded, "frame height exceeds the size limit"));
    }
    Ok(Some(info))
}

/// A decoder node: it has no input, and is replaced by a primitive decoder, followed by an
/// orientation node where the image carries an EXIF orientation.
pub struct DecoderDef {}

impl DecoderDef {
    /// No input, any children.
    pub fn edges_required(&self) -> (r: Result<(EdgesIn, EdgesOut), FlowError>)
        ensures
            r == Ok::<(EdgesIn, EdgesOut), FlowError>((EdgesIn::NoInput, EdgesOut::Any)),
    {
        Ok((EdgesIn::NoInput, EdgesOut::Any))
    }

    /// The frame is what the decoder reports it decodes into, exactly.
    pub fn estimate(&self, w: i32, h: i32, fmt: PixelFormat) -> (r: FrameEstimate)
        ensures
            r == FrameEstimate::Exact(FrameInfo { w, h, fmt }),
    {
        FrameEstimate::Exact(FrameInfo { w, h, fmt })
    }

    pub fn can_expand(&self) -> (r: bool)
        ensures
            r,
    {
        true
    }

    /// The orientation node that expanding adds after the decoder: one with the image's EXIF
    /// orientation flag where there is one above zero, none otherwise.
    pub fn expand(&self, exif_flag: Option<i32>) -> (r: Option<i32>)
        ensures
            r == (match exif_flag {
                Some(f) => if f > 0 { Some(f) } else { None::<i32> },
                None => None::<i32>,
            }),
    {
        match exif_flag {
            Some(f) => if f > 0 { Some(f) } else { None },
            None => None,
        }
    }

    /// A decoder node passes no commands to its decoder; its primitive replacement does.
    pub fn tell_decoder<T>(&self) -> (r: Option<(i32, Vec<T>)>)
        ensures
            r is None,
    {
        None
    }
}

/// The decoder node after expansion: it reads the frame from its codec.
pub struct DecoderPrimitiveDef {}

impl DecoderPrimitiveDef {
    /// No input, any children.
    pub fn edges_required(&self) -> (r: Result<(EdgesIn, EdgesOut), FlowError>)
        ensures
            r == Ok::<(EdgesIn, EdgesOut), FlowError>((EdgesIn::NoInput, EdgesOut::Any)),
    {
        Ok((EdgesIn::NoInput, EdgesOut::Any))
    }

    /// The commands of the node, with the id of the input they are for, where it has any.
    pub fn tell_decoder<T>(&self, io_id: i32, commands: Option<Vec<T>>) -> (r: Option<(i32, Vec<T>)>)
        ensures
            commands is None ==> r is None,
            commands matches Some(v) ==> r == Some((io_id, v)),
    {
        match commands {
            Some(v) => Some((io_id, v)),
            None => None,
        }
    }

    pub fn can_execute(&self) -> (r: bool)
        ensures
            r,
    {
        true
    }
}

/// An encoder node: one input, no children; it writes its input's frame through its codec.
pub struct EncoderDef {}

impl EncoderDef {
    /// One input, no children.
    pub fn edges_required(&self) -> (r: Result<(EdgesIn, EdgesOut), FlowError>)
        ensures
            r == Ok::<(EdgesIn, EdgesOut), FlowError>((EdgesIn::OneInput, EdgesOut::NoOutput)),
    {
        Ok((EdgesIn::OneInput, EdgesOut::NoOutput))
    }

    /// The encoded frame is the input's frame.
    pub fn estimate(&self, input: FrameEstimate) -> (r: FrameEstimate)
        ensures
            r == input,
    {
        input
    }

    pub fn can_execute(&self) -> (r: bool)
        ensures
            r,
    {
        true
    }
}

/// Where the frame of a bitmap-pointer node comes from when it executes.
#[derive(Copy, Clone, Debug, PartialEq, Eq, Structural)]
pub enum PointerFrameSource {
    /// The input's frame, which is also stored through the pointer.
    Input,
    /// The bitmap the pointer already points to.
    Target,
}

/// A node that hands a bitmap in or out through a pointer to a bitmap pointer.
pub struct BitmapBgraDef {}

impl BitmapBgraDef {
    /// An optional input, any children.
    pub fn edges_required(&self) -> (r: Result<(EdgesIn, EdgesOut), FlowError>)
        ensures
            r == Ok::<(EdgesIn, EdgesOut), FlowError>((EdgesIn::OneOptionalInput, EdgesOut::Any)),
    {
        Ok((EdgesIn::OneOptionalInput, EdgesOut::Any))
    }

    /// The parameters are valid when the pointer to the bitmap pointer is not null.
    pub fn validate_params(&self, pointer_is_null: bool) -> (r: Result<(), FlowError>)
        ensures
            pointer_is_null ==> (r matches Err(e) && e.kind == ErrorKind::InvalidNodeParams),
            !pointer_is_null ==> r is Ok,
    {
        if pointer_is_null {
            Err(FlowError::with_message(ErrorKind::InvalidNodeParams, "The pointer to the bitmap bgra pointer is null! Must be a valid reference to a pointer's location."))
        } else {
            Ok(())
        }
    }

    /// The frame is that of the bitmap pointed to, exactly, where there is one; otherwise it is
    /// the input's.
    pub fn estimate(&self, target: Option<FrameInfo>, input: FrameEstimate) -> (r: FrameEstimate)
        ensures
            target matches Some(info) ==> r == FrameEstimate::Exact(info),
            target is None ==> r == input,
    {
        match target {
            Some(info) => FrameEstimate::Exact(info),
            None => input,
        }
    }

    /// With an input frame, the node passes it on and stores it through the pointer; without one
    /// it serves the bitmap already pointed to, and a null bitmap pointer is `InvalidNodeParams`.
    pub fn execute_source(&self, has_input: bool, target_is_null: bool) -> (r: Result<PointerFrameSource, FlowError>)
        ensures
            has_input ==> r == Ok::<PointerFrameSource, FlowError>(PointerFrameSource::Input),
            !has_input && target_is_null ==> (r matches Err(e) && e.kind == ErrorKind::InvalidNodeParams),
            !has_input && !target_is_null ==> r == Ok::<PointerFrameSource, FlowError>(PointerFrameSource::Target),
    {
        if has_input {
            Ok(PointerFrameSource::Input)
        } else if target_is_null {
            Err(FlowError::with_message(ErrorKind::InvalidNodeParams, "When serving as an input node (no parent), FlowBitmapBgraPtr must point to a pointer to a valid BitmapBgra struct."))
        } else {
            Ok(PointerFrameSource::Target)
        }
    }

    pub fn can_execute(&self) -> (r: bool)
        ensures
            r,
    {
        true
    }
}

/// The node that clears the area outside rounded corners of its input bitmap.
pub struct RoundImageCornersMut;

impl RoundImageCornersMut {
    /// Prepares the bitmap for the corners to be cleared: it is blended with itself from now on.
    /// Returns whether its pixels can be read as 4-byte BGRA pixels (4 bytes a pixel, a stride and
    /// a buffer length in whole pixels), which clearing the corners needs.
    pub fn prepare(&self, bitmap: &mut Bitmap) -> (r: bool)
        ensures
            final(bitmap).spec_info() == (SurfaceInfo { compose: BitmapCompositing::BlendWithSelf, ..old(bitmap).spec_info() }),
            final(bitmap).spec_bytes() == old(bitmap).spec_bytes(),
            final(bitmap).spec_w() == old(bitmap).spec_w(),
            final(bitmap).spec_h() == old(bitmap).spec_h(),
            final(bitmap).spec_stride() == old(bitmap).spec_stride(),
            final(bitmap).spec_bpp() == old(bitmap).spec_bpp(),
            final(bitmap).spec_offset() == old(bitmap).spec_offset(),
            final(bitmap).spec_cropped() == old(bitmap).spec_cropped(),
            r == (old(bitmap).spec_bpp() == 4 && old(bitmap).spec_stride() % 4 == 0
                && old(bitmap).spec_bytes().len() % 4 == 0),
    {
        bitmap.set_compositing(BitmapCompositing::BlendWithSelf);
        let info = bitmap.info();
        info.t_per_pixel == 4 && info.t_stride % 4 == 0 && bitmap.buffer_len() % 4 == 0
    }
}

} // verus!
