use imageflow_core::flow::analyze::{AnalyzeDef, AnalyzeMode};
use imageflow_core::errors::ErrorKind;
use imageflow_core::flow::command_nodes::{
    CommandStringDef, CommandStringPostDecodeDef, CommandStringPostTranslateDef, ConstrainDef,
};
use imageflow_core::flow::definitions::FrameEstimate;
use imageflow_core::flow::engine::{EdgesIn, EdgesOut};
use imageflow_core::flow::nodes::{CropParams, ExpandCanvasParams};
use imageflow_core::flow_error::FlowError;
use imageflow_core::graphics::bitmaps::Color32;

#[test]
fn a_command_string_has_exactly_one_image_source() {
    let d = CommandStringDef;
    assert!(d.expand(Some(0), false).is_ok());
    assert!(d.expand(None, true).is_ok());
    assert_eq!(d.expand(Some(0), true).unwrap_err().kind, ErrorKind::InvalidNodeParams);
    assert_eq!(d.expand(None, false).unwrap_err().kind, ErrorKind::InvalidNodeParams);
    assert_eq!(d.edges_required().unwrap(), (EdgesIn::OneInput, EdgesOut::Any));
    assert_eq!(d.estimate().unwrap(), FrameEstimate::Impossible);
    assert!(d.can_expand());
}

#[test]
fn a_translated_command_string_adds_its_decoder() {
    let d = CommandStringPostTranslateDef;
    assert_eq!(d.expand(Some(3), false).unwrap(), Some(3));
    assert_eq!(d.expand(None, true).unwrap(), None);
    assert_eq!(d.expand(Some(3), true).unwrap_err().kind, ErrorKind::InvalidNodeParams);
    assert_eq!(d.estimate().unwrap(), FrameEstimate::Impossible);
}

#[test]
fn a_decoded_command_string_invalidates_estimates_once() {
    let d = CommandStringPostDecodeDef;
    assert!(d.estimate_lays_out(FrameEstimate::Unknown));
    assert!(!d.estimate_lays_out(FrameEstimate::Invalidated));
    assert_eq!(d.estimate(FrameEstimate::Unknown, Ok(())).unwrap(), FrameEstimate::Invalidated);
    assert_eq!(d.estimate(FrameEstimate::Invalidated, Ok(())).unwrap(), FrameEstimate::Impossible);
    let e = d.estimate(FrameEstimate::Unknown, Err(FlowError::new(ErrorKind::LayoutError))).unwrap_err();
    assert_eq!(e.kind, ErrorKind::LayoutError);
    assert_eq!(d.edges_required().unwrap(), (EdgesIn::OneInput, EdgesOut::Any));
}

#[test]
fn a_constraint_becomes_crop_scale_and_padding() {
    let plan = ConstrainDef.expand(Some([1, 2, 30, 40]), (100, 50), Some([5, 0, 5, 0]), Some(Color32(0xFFFF0000)));
    assert_eq!(plan.crop, Some(CropParams { x1: 1, y1: 2, x2: 30, y2: 40 }));
    assert_eq!((plan.scale_w, plan.scale_h), (100, 50));
    assert_eq!(plan.background, Some(Color32(0xFFFF0000)));
    assert_eq!(plan.pad, Some(ExpandCanvasParams { left: 5, top: 0, right: 5, bottom: 0, color: Color32(0xFFFF0000) }));
    let bare = ConstrainDef.expand(None, (10, 10), Some([0, 1, 0, 1]), None);
    assert_eq!(bare.crop, None);
    assert_eq!(bare.background, None);
    assert_eq!(bare.pad.unwrap().color, Color32(0));
}

#[test]
fn analysis_passes_frames_through() {
    let d = AnalyzeDef;
    assert_eq!(d.edges_required().unwrap(), (EdgesIn::OneInput, EdgesOut::Any));
    assert_eq!(d.estimate(FrameEstimate::Unknown), FrameEstimate::Unknown);
    assert!(d.can_execute());
    assert!(d.runs_saliency(AnalyzeMode::Saliency));
    assert!(d.runs_saliency(AnalyzeMode::Focus));
    assert!(d.runs_saliency(AnalyzeMode::All));
    assert!(!d.runs_saliency(AnalyzeMode::Faces));
}
