use imageflow_core::errors::ErrorKind;
use imageflow_core::flow::definitions::{FrameEstimate, FrameInfo};
use imageflow_core::flow::engine::{
    estimate_or_impossible, EdgeKind, EdgesIn, EdgesOut, GraphEdge, GraphNode, NodeGraph, NodeOutcome,
};
use imageflow_core::flow_error::FlowError;
use imageflow_core::graphics::bitmaps::PixelFormat;

fn node(edges_in: EdgesIn, edges_out: EdgesOut) -> GraphNode {
    GraphNode { can_execute: true, can_expand: false, executed: false, estimate: FrameEstimate::Unknown, edges_in, edges_out }
}

fn chain() -> NodeGraph {
    NodeGraph {
        nodes: vec![node(EdgesIn::NoInput, EdgesOut::Any), node(EdgesIn::OneInput, EdgesOut::NoOutput)],
        edges: vec![GraphEdge { from: 0, to: 1, kind: EdgeKind::Input }],
    }
}

#[test]
fn a_well_connected_graph_validates() {
    assert!(chain().validate_graph_edges().is_ok());
}

#[test]
fn a_child_of_an_encoder_is_refused() {
    let mut g = chain();
    g.nodes.push(node(EdgesIn::OneInput, EdgesOut::Any));
    g.edges.push(GraphEdge { from: 1, to: 2, kind: EdgeKind::Input });
    assert_eq!(g.validate_graph_edges().unwrap_err().kind, ErrorKind::InvalidNodeConnections);
}

#[test]
fn executed_frames_replace_estimates() {
    let mut g = chain();
    let info = FrameInfo { w: 3, h: 4, fmt: PixelFormat::Bgr32 };
    g.record_execution(0, NodeOutcome::Frame(Some(info))).unwrap();
    assert!(g.nodes[0].executed);
    assert_eq!(g.nodes[0].estimate, FrameEstimate::Exact(info));
    assert!(g.parents_complete(1));
    g.record_execution(1, NodeOutcome::Encoded).unwrap();
    assert!(g.graph_fully_executed());
    assert_eq!(g.nodes[1].estimate, FrameEstimate::Unknown);
}

#[test]
fn a_node_that_produced_nothing_is_refused() {
    let mut g = chain();
    assert_eq!(g.record_execution(0, NodeOutcome::Nothing).unwrap_err().kind, ErrorKind::InvalidOperation);
    assert!(!g.nodes[0].executed);
    g.record_execution(0, NodeOutcome::Frame(None)).unwrap();
    assert!(g.nodes[0].executed);
    assert_eq!(g.nodes[0].estimate, FrameEstimate::Unknown);
}

#[test]
fn estimates_are_recorded_and_forgotten() {
    let mut g = chain();
    let info = FrameInfo { w: 3, h: 4, fmt: PixelFormat::Bgra32 };
    g.record_estimate(0, &Ok(FrameEstimate::Exact(info)));
    assert!(g.flow_node_has_dimensions(0));
    g.record_estimate(0, &Err(FlowError::new(ErrorKind::InvalidArgument)));
    assert!(g.flow_node_has_dimensions(0));
    g.invalidate_all_graph_estimates();
    assert!(!g.flow_node_has_dimensions(0));
    assert_eq!(g.nodes[0].estimate, FrameEstimate::Unknown);
}

#[test]
fn unimplemented_estimates_are_impossible() {
    let r = estimate_or_impossible(Err(FlowError::new(ErrorKind::MethodNotImplemented)));
    assert_eq!(r.unwrap(), FrameEstimate::Impossible);
    let r = estimate_or_impossible(Err(FlowError::new(ErrorKind::InvalidArgument)));
    assert_eq!(r.unwrap_err().kind, ErrorKind::InvalidArgument);
    let r = estimate_or_impossible(Ok(FrameEstimate::Invalidated));
    assert_eq!(r.unwrap(), FrameEstimate::Invalidated);
}
