//! What the graph knows of a frame before it is rendered: its dimensions and format, exactly,
//! as an upper bound, or not at all.
use vstd::prelude::*;
use crate::flow_error::FlowError;
use crate::graphics::bitmaps::PixelFormat;

verus! {

/// The dimensions and pixel format of a frame.
#[derive(Copy, Clone, Debug, PartialEq, Eq, Structural)]
pub struct FrameInfo {
    pub w: i32,
    pub h: i32,
    pub fmt: PixelFormat,
}

/// What is known of a frame before it exists.
#[derive(Copy, Clone, Debug, PartialEq, Eq, Structural)]
pub enum FrameEstimate {
    /// Nothing is known yet.
    Unknown,
    Impossible,
    Invalidated,
    UpperBound(FrameInfo),
    /// The frame is known exactly.
    Exact(FrameInfo),
}

/// The frame with width and height exchanged.
pub open spec fn transposed_info(info: FrameInfo) -> FrameInfo {
    FrameInfo { w: info.h, h: info.w, fmt: info.fmt }
}

/// The estimate of the transposed frame: exact and upper-bound frames are transposed, the rest kept.
pub open spec fn transposed_estimate(e: FrameEstimate) -> FrameEstimate {
    match e {
        FrameEstimate::Exact(info) => FrameEstimate::Exact(transposed_info(info)),
        FrameEstimate::UpperBound(info) => FrameEstimate::UpperBound(transposed_info(info)),
        other => other,
    }
}

impl FrameEstimate {
    /// Nothing is known.
    pub fn is_none(&self) -> (r: bool)
        ensures
            r == (*self == FrameEstimate::Unknown),
    {
        *self == FrameEstimate::Unknown
    }

    /// The frame is known exactly.
    pub fn is_some(&self) -> (r: bool)
        ensures
            r == (*self is Exact),
    {
        match self {
            FrameEstimate::Exact(_) => true,
            _ => false,
        }
    }

    /// Applies `f` to the frame of an exact or upper-bound estimate, keeping the kind of estimate;
    /// other estimates are returned as they are. An error of `f` is returned.
    pub fn map_frame<F: Fn(FrameInfo) -> Result<FrameInfo, FlowError>>(self, f: F) -> (r: Result<FrameEstimate, FlowError>)
        requires
            self matches FrameEstimate::Exact(info) ==> f.requires((info,)),
            self matches FrameEstimate::UpperBound(info) ==> f.requires((info,)),
        ensures
            match self {
                FrameEstimate::Exact(info) => exists|fr: Result<FrameInfo, FlowError>| #[trigger] f.ensures((info,), fr)
                    && match fr {
                        Ok(out) => r == Ok::<FrameEstimate, FlowError>(FrameEstimate::Exact(out)),
                        Err(e) => r == Err::<FrameEstimate, FlowError>(e),
                    },
                FrameEstimate::UpperBound(info) => exists|fr: Result<FrameInfo, FlowError>| #[trigger] f.ensures((info,), fr)
                    && match fr {
                        Ok(out) => r == Ok::<FrameEstimate, FlowError>(FrameEstimate::UpperBound(out)),
                        Err(e) => r == Err::<FrameEstimate, FlowError>(e),
                    },
                other => r == Ok::<FrameEstimate, FlowError>(other),
            },
    {
        match self {
            FrameEstimate::Exact(info) => {
                let fr = f(info);
                match fr {
                    Ok(out) => Ok(FrameEstimate::Exact(out)),
                    Err(e) => Err(e),
                }
            },
            FrameEstimate::UpperBound(info) => {
                let fr = f(info);
                match fr {
                    Ok(out) => Ok(FrameEstimate::UpperBound(out)),
                    Err(e) => Err(e),
                }
            },
            other => Ok(other),
        }
    }

    /// The estimate of the transposed frame.
    pub fn transpose(&self) -> (r: FrameEstimate)
        ensures
            r == transposed_estimate(*self),
    {
        let swap = |info: FrameInfo| -> (o: Result<FrameInfo, FlowError>)
            ensures
                o == Ok::<FrameInfo, FlowError>(transposed_info(info)),
        {
            Ok(FrameInfo { w: info.h, h: info.w, fmt: info.fmt })
        };
        match self.map_frame(swap) {
            Ok(e) => e,
            Err(_) => *self,
        }
    }
}

/// Transposing an estimate twice gives it back.
pub proof fn lemma_transpose_twice(e: FrameEstimate)
    ensures
        transposed_estimate(transposed_estimate(e)) == e,
{
}

} // verus!
