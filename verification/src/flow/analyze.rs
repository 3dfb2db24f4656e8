//! The analysis node: it passes its input's frame through and reports regions of interest of the
//! image, found by saliency analysis for every mode but face detection, which reports none.
use vstd::prelude::*;
use crate::flow_error::FlowError;
use crate::flow::definitions::FrameEstimate;
use crate::flow::engine::{EdgesIn, EdgesOut};

verus! {

/// What an analysis looks for.
#[derive(Copy, Clone, Debug, PartialEq, Eq, Structural)]
pub enum AnalyzeMode {
    Saliency,
    Focus,
    Faces,
    All,
}

/// A node that analyzes its input.
pub struct AnalyzeDef;

impl AnalyzeDef {
    /// One input, any children.
    pub fn edges_required(&self) -> (r: Result<(EdgesIn, EdgesOut), FlowError>)
        ensures
            r == Ok::<(EdgesIn, EdgesOut), FlowError>((EdgesIn::OneInput, EdgesOut::Any)),
    {
        Ok((EdgesIn::OneInput, EdgesOut::Any))
    }

    /// Analysis does not change the frame: the estimate is the input's.
    pub fn estimate(&self, input: FrameEstimate) -> (r: FrameEstimate)
        ensures
            r == input,
    {
        input
    }

    pub fn can_execute(&self) -> (r: bool)
        ensures
            r,
    {
        true
    }

    /// Saliency analysis runs for saliency, focus and all; face detection is not available and
    /// reports no regions.
    pub fn runs_saliency(&self, mode: AnalyzeMode) -> (r: bool)
        ensures
            r == (mode != AnalyzeMode::Faces),
    {
        match mode {
            AnalyzeMode::Faces => false,
            _ => true,
        }
    }
}

} // verus!
