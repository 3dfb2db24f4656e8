//! Nodes whose geometry comes from a layout engine: command strings and constraints. The layout
//! itself is computed by the caller; what stands here is what the nodes decide from it: where a
//! command string's image comes from, and which crop, scale and padding a constraint becomes.
use vstd::prelude::*;
use crate::errors::ErrorKind;
use crate::flow_error::FlowError;
use crate::flow::definitions::FrameEstimate;
use crate::flow::engine::{EdgesIn, EdgesOut};
use crate::flow::nodes::{CropParams, ExpandCanvasParams};
use crate::graphics::bitmaps::Color32;

verus! {

/// A command string either names an input to decode and has no parent, or has a parent and
/// names none; anything else is `InvalidNodeParams`.
pub open spec fn source_conflict(decode: Option<i32>, has_parent: bool) -> bool {
    (decode is Some && has_parent) || (decode is None && !has_parent)
}

/// Checks where a command string's image comes from.
fn check_command_source(decode: Option<i32>, has_parent: bool) -> (r: Result<(), FlowError>)
    ensures
        source_conflict(decode, has_parent) ==> (r matches Err(e) && e.kind == ErrorKind::InvalidNodeParams),
        !source_conflict(decode, has_parent) ==> r is Ok,
{
    match decode {
        Some(_) => {
            if has_parent {
                return Err(FlowError::with_message(ErrorKind::InvalidNodeParams,
                    "CommandString must either have decode: null or have no parent nodes. Specifying a value for decode creates a new decoder node."));
            }
        },
        None => {
            if !has_parent {
                return Err(FlowError::with_message(ErrorKind::InvalidNodeParams,
                    "CommandString must have a parent node unless 'decode' has a numeric value. Otherwise it has no image source. "));
            }
        },
    }
    Ok(())
}

/// A node holding a command string, which the layout engine turns into steps when the graph is
/// expanded.
pub struct CommandStringDef;

impl CommandStringDef {
    /// One input, any children.
    pub fn edges_required(&self) -> (r: Result<(EdgesIn, EdgesOut), FlowError>)
        ensures
            r == Ok::<(EdgesIn, EdgesOut), FlowError>((EdgesIn::OneInput, EdgesOut::Any)),
    {
        Ok((EdgesIn::OneInput, EdgesOut::Any))
    }

    /// Nothing is known of the frame before the command string is turned into steps.
    pub fn estimate(&self) -> (r: Result<FrameEstimate, FlowError>)
        ensures
            r == Ok::<FrameEstimate, FlowError>(FrameEstimate::Impossible),
    {
        Ok(FrameEstimate::Impossible)
    }

    pub fn can_expand(&self) -> (r: bool)
        ensures
            r,
    {
        true
    }

    /// Before it is turned into steps, checks that the command string has exactly one image
    /// source: an input it decodes, or its parent.
    pub fn expand(&self, decode: Option<i32>, has_parent: bool) -> (r: Result<(), FlowError>)
        ensures
            source_conflict(decode, has_parent) ==> (r matches Err(e) && e.kind == ErrorKind::InvalidNodeParams),
            !source_conflict(decode, has_parent) ==> r is Ok,
    {
        check_command_source(decode, has_parent)
    }
}

/// A command string turned into steps, waiting for its decoder.
pub struct CommandStringPostTranslateDef;

impl CommandStringPostTranslateDef {
    /// One input, any children.
    pub fn edges_required(&self) -> (r: Result<(EdgesIn, EdgesOut), FlowError>)
        ensures
            r == Ok::<(EdgesIn, EdgesOut), FlowError>((EdgesIn::OneInput, EdgesOut::Any)),
    {
        Ok((EdgesIn::OneInput, EdgesOut::Any))
    }

    /// Nothing is known of the frame yet.
    pub fn estimate(&self) -> (r: Result<FrameEstimate, FlowError>)
        ensures
            r == Ok::<FrameEstimate, FlowError>(FrameEstimate::Impossible),
    {
        Ok(FrameEstimate::Impossible)
    }

    pub fn can_expand(&self) -> (r: bool)
        ensures
            r,
    {
        true
    }

    /// The node becomes its post-decode form, preceded by a decoder of the named input where it
    /// names one (the returned id); its image sources are checked as a command string's are.
    pub fn expand(&self, decode: Option<i32>, has_parent: bool) -> (r: Result<Option<i32>, FlowError>)
        ensures
            source_conflict(decode, has_parent) ==> (r matches Err(e) && e.kind == ErrorKind::InvalidNodeParams),
            !source_conflict(decode, has_parent) ==> r == Ok::<Option<i32>, FlowError>(decode),
    {
        match check_command_source(decode, has_parent) {
            Ok(()) => Ok(decode),
            Err(e) => Err(e),
        }
    }
}

/// A command string whose decoder is known: it passes its decoder commands on, then expands into
/// its steps.
pub struct CommandStringPostDecodeDef;

impl CommandStringPostDecodeDef {
    /// One input, any children.
    pub fn edges_required(&self) -> (r: Result<(EdgesIn, EdgesOut), FlowError>)
        ensures
            r == Ok::<(EdgesIn, EdgesOut), FlowError>((EdgesIn::OneInput, EdgesOut::Any)),
    {
        Ok((EdgesIn::OneInput, EdgesOut::Any))
    }

    /// Whether estimating must lay out the command string and pass its decoder commands on: not
    /// once the node's estimate has been invalidated.
    pub fn estimate_lays_out(&self, previous: FrameEstimate) -> (r: bool)
        ensures
            r == !(previous is Invalidated),
    {
        match previous {
            FrameEstimate::Invalidated => false,
            _ => true,
        }
    }

    /// The estimate: impossible once invalidated; otherwise, after the decoder commands were
    /// passed on, the graph's estimates are invalidated so that they are made again with the
    /// decoder's new settings. A failed layout fails the estimate.
    pub fn estimate(&self, previous: FrameEstimate, layout: Result<(), FlowError>) -> (r: Result<FrameEstimate, FlowError>)
        ensures
            previous is Invalidated ==> r == Ok::<FrameEstimate, FlowError>(FrameEstimate::Impossible),
            !(previous is Invalidated) ==> (match layout {
                Ok(()) => r == Ok::<FrameEstimate, FlowError>(FrameEstimate::Invalidated),
                Err(e) => r == Err::<FrameEstimate, FlowError>(e),
            }),
    {
        if !self.estimate_lays_out(previous) {
            return Ok(FrameEstimate::Impossible);
        }
        match layout {
            Ok(()) => Ok(FrameEstimate::Invalidated),
            Err(e) => Err(e),
        }
    }

    pub fn can_expand(&self) -> (r: bool)
        ensures
            r,
    {
        true
    }
}

/// What a constraint node becomes: an optional crop, a scale to the given size (drawn onto the
/// canvas color where the constraint gives one), and optional padding in the canvas color.
#[derive(Copy, Clone, Debug, PartialEq, Eq, Structural)]
pub struct ConstrainPlan {
    pub crop: Option<CropParams>,
    pub scale_w: u32,
    pub scale_h: u32,
    /// The background the scale draws onto, where the canvas color replaces that of the hints.
    pub background: Option<Color32>,
    pub pad: Option<ExpandCanvasParams>,
}

/// A node that fits its input within constraints, laid out by the layout engine.
pub struct ConstrainDef;

impl ConstrainDef {
    /// The steps a laid-out constraint becomes: the layout's crop (left, top, right, bottom), a
    /// scale to its size, and its padding (left, top, right, bottom) in the canvas color, or
    /// transparent without one.
    pub fn expand(&self, crop: Option<[u32; 4]>, scale_to: (i32, i32), pad: Option<[u32; 4]>, canvas_color: Option<Color32>)
        -> (r: ConstrainPlan)
        ensures
            r.crop == (match crop {
                Some(c) => Some(CropParams { x1: c[0], y1: c[1], x2: c[2], y2: c[3] }),
                None => None::<CropParams>,
            }),
            r.scale_w == scale_to.0 as u32,
            r.scale_h == scale_to.1 as u32,
            r.background == canvas_color,
            r.pad == (match pad {
                Some(p) => Some(ExpandCanvasParams {
                    left: p[0],
                    top: p[1],
                    right: p[2],
                    bottom: p[3],
                    color: match canvas_color {
                        Some(c) => c,
                        None => Color32(0),
                    },
                }),
                None => None::<ExpandCanvasParams>,
            }),
    {
        let crop_params = match crop {
            Some(c) => Some(CropParams { x1: c[0], y1: c[1], x2: c[2], y2: c[3] }),
            None => None,
        };
        let pad_params = match pad {
            Some(p) => Some(ExpandCanvasParams {
                left: p[0],
                top: p[1],
                right: p[2],
                bottom: p[3],
                color: match canvas_color {
                    Some(c) => c,
                    None => Color32(0),
                },
            }),
            None => None,
        };
        ConstrainPlan {
            crop: crop_params,
            scale_w: scale_to.0 as u32,
            scale_h: scale_to.1 as u32,
            background: canvas_color,
            pad: pad_params,
        }
    }
}

} // verus!
