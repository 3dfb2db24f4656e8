//! The decisions of the graph engine over a model of its graph: which node runs next, whether
//! the graph is done, and whether a node's edges are what its definition requires.
use vstd::prelude::*;
use crate::errors::ErrorKind;
use crate::flow_error::FlowError;
use crate::flow::definitions::{FrameEstimate, FrameInfo};

verus! {

/// What an edge feeds its target node with.
#[derive(Copy, Clone, Debug, PartialEq, Eq, Structural)]
pub enum EdgeKind {
    Input,
    Canvas,
}

/// The incoming edges a node definition requires.
#[derive(Copy, Clone, Debug, PartialEq, Eq, Structural)]
pub enum EdgesIn {
    NoInput,
    OneInput,
    OneOptionalInput,
    OneInputOneCanvas,
    Arbitrary { inputs: i32, canvases: i32, infos: i32 },
}

/// Whether a node may have outgoing edges.
#[derive(Copy, Clone, Debug, PartialEq, Eq, Structural)]
pub enum EdgesOut {
    /// The node may have no children.
    NoOutput,
    Any,
}

/// A node as the engine sees it: what its definition can do, whether it has produced its
/// result, and what is known of its frame.
#[derive(Copy, Clone, Debug, PartialEq, Eq, Structural)]
pub struct GraphNode {
    pub can_execute: bool,
    pub can_expand: bool,
    pub executed: bool,
    pub estimate: FrameEstimate,
    pub edges_in: EdgesIn,
    pub edges_out: EdgesOut,
}

/// An edge from node `from` to node `to`.
#[derive(Copy, Clone, Debug, PartialEq, Eq, Structural)]
pub struct GraphEdge {
    pub from: usize,
    pub to: usize,
    pub kind: EdgeKind,
}

/// The graph of a job: nodes by index, and edges between them.
pub struct NodeGraph {
    pub nodes: Vec<GraphNode>,
    pub edges: Vec<GraphEdge>,
}

/// Every parent of node `ix` (the source of an edge into it) has executed.
pub open spec fn spec_parents_complete(g: &NodeGraph, ix: int) -> bool {
    forall|e: int| 0 <= e < g.edges@.len() && g.edges@[e].to == ix
        ==> #[trigger] g.nodes@[g.edges@[e].from as int].executed
}

/// Every parent of node `ix` has an exact estimate.
pub open spec fn spec_parents_estimated(g: &NodeGraph, ix: int) -> bool {
    forall|e: int| 0 <= e < g.edges@.len() && g.edges@[e].to == ix
        ==> #[trigger] g.nodes@[g.edges@[e].from as int].estimate is Exact
}

/// The estimates of the parents of node `ix` over the first `n` edges, in edge order.
pub open spec fn parent_estimates(g: &NodeGraph, ix: int, n: int) -> Seq<FrameEstimate>
    decreases n,
{
    if n <= 0 {
        Seq::empty()
    } else if g.edges@[n - 1].to == ix {
        parent_estimates(g, ix, n - 1).push(g.nodes@[g.edges@[n - 1].from as int].estimate)
    } else {
        parent_estimates(g, ix, n - 1)
    }
}

/// The first `n` edges that go into node `ix` with kind `kind`.
pub open spec fn count_in(edges: Seq<GraphEdge>, ix: int, kind: EdgeKind, n: int) -> nat
    decreases n,
{
    if n <= 0 {
        0
    } else {
        count_in(edges, ix, kind, n - 1) + (if edges[n - 1].to == ix && edges[n - 1].kind == kind { 1nat } else { 0nat })
    }
}

/// The first `n` edges that come out of node `ix`.
pub open spec fn count_out(edges: Seq<GraphEdge>, ix: int, n: int) -> nat
    decreases n,
{
    if n <= 0 {
        0
    } else {
        count_out(edges, ix, n - 1) + (if edges[n - 1].from == ix { 1nat } else { 0nat })
    }
}

/// Scanning for the next node to run passes over node `k`: it can execute but is done or not
/// ready, or it cannot execute but can expand.
pub open spec fn passed_over(g: &NodeGraph, k: int) -> bool {
    if g.nodes@[k].can_execute {
        !(!g.nodes@[k].executed && spec_parents_complete(g, k))
    } else {
        g.nodes@[k].can_expand
    }
}

/// Some estimate is impossible or only an upper bound.
pub open spec fn gives_up(ests: Seq<FrameEstimate>) -> bool {
    exists|i: int| 0 <= i < ests.len() && (#[trigger] ests[i] is Impossible || ests[i] is UpperBound)
}

/// The counts of input and canvas edges break the requirement.
pub open spec fn inputs_failed(req: EdgesIn, inputs: int, canvases: int) -> bool {
    match req {
        EdgesIn::NoInput => inputs > 0 || canvases > 0,
        EdgesIn::Arbitrary { inputs: want_inputs, canvases: want_canvases, .. } =>
            inputs != want_inputs as usize || canvases != want_canvases as usize,
        EdgesIn::OneInput => inputs != 1 && canvases != 0,
        EdgesIn::OneInputOneCanvas => inputs != 1 && canvases != 1,
        EdgesIn::OneOptionalInput => canvases != 0 && (inputs != 0 && inputs != 1),
    }
}

impl NodeGraph {
    /// Every edge joins two nodes of the graph.
    pub open spec fn wf(&self) -> bool {
        forall|e: int| 0 <= e < self.edges@.len()
            ==> (#[trigger] self.edges@[e]).from < self.nodes@.len() && self.edges@[e].to < self.nodes@.len()
    }

    /// Whether every parent of node `ix` has executed.
    pub fn parents_complete(&self, ix: usize) -> (r: bool)
        requires
            self.wf(),
        ensures
            r == spec_parents_complete(self, ix as int),
    {
        let mut e: usize = 0;
        while e < self.edges.len()
            invariant
                self.wf(),
                e <= self.edges@.len(),
                forall|k: int| 0 <= k < e && self.edges@[k].to == ix
                    ==> #[trigger] self.nodes@[self.edges@[k].from as int].executed,
            decreases self.edges@.len() - e,
        {
            let edge = self.edges[e];
            if edge.to == ix && !self.nodes[edge.from].executed {
                return false;
            }
            e = e + 1;
        }
        true
    }

    /// Whether every parent of node `ix` has an exact estimate.
    pub fn parents_estimated(&self, ix: usize) -> (r: bool)
        requires
            self.wf(),
        ensures
            r == spec_parents_estimated(self, ix as int),
    {
        let mut e: usize = 0;
        while e < self.edges.len()
            invariant
                self.wf(),
                e <= self.edges@.len(),
                forall|k: int| 0 <= k < e && self.edges@[k].to == ix
                    ==> #[trigger] self.nodes@[self.edges@[k].from as int].estimate is Exact,
            decreases self.edges@.len() - e,
        {
            let edge = self.edges[e];
            if edge.to == ix && !self.nodes[edge.from].estimate.is_some() {
                return false;
            }
            e = e + 1;
        }
        true
    }

    /// Whether every node has executed.
    pub fn graph_fully_executed(&self) -> (r: bool)
        ensures
            r == forall|i: int| 0 <= i < self.nodes@.len() ==> #[trigger] self.nodes@[i].executed,
    {
        let mut i: usize = 0;
        while i < self.nodes.len()
            invariant
                i <= self.nodes@.len(),
                forall|k: int| 0 <= k < i ==> #[trigger] self.nodes@[k].executed,
            decreases self.nodes@.len() - i,
        {
            if !self.nodes[i].executed {
                return false;
            }
            i = i + 1;
        }
        true
    }

    /// Whether node `ix` exists and its frame is known exactly.
    pub fn flow_node_has_dimensions(&self, ix: usize) -> (r: bool)
        ensures
            r == (ix < self.nodes@.len() && self.nodes@[ix as int].estimate is Exact),
    {
        if ix < self.nodes.len() { self.nodes[ix].estimate.is_some() } else { false }
    }

    /// The node that runs next: the first that can execute, has not, and whose parents all have.
    /// Scanning stops with `MethodNotImplemented` at a node, before that one, that can neither
    /// execute nor expand. None when no node is ready.
    pub fn next_to_execute(&self) -> (r: Result<Option<usize>, FlowError>)
        requires
            self.wf(),
        ensures
            r matches Ok(Some(ix)) ==> {
                &&& ix < self.nodes@.len()
                &&& self.nodes@[ix as int].can_execute && !self.nodes@[ix as int].executed
                &&& spec_parents_complete(self, ix as int)
                &&& forall|k: int| 0 <= k < ix ==> #[trigger] passed_over(self, k)
            },
            r is Ok && r->Ok_0 is None ==> forall|k: int| 0 <= k < self.nodes@.len() ==> #[trigger] passed_over(self, k),
            r matches Err(e) ==> e.kind == ErrorKind::MethodNotImplemented && exists|ix: int| 0 <= ix < self.nodes@.len()
                && !self.nodes@[ix].can_execute && !self.nodes@[ix].can_expand
                && forall|k: int| 0 <= k < ix ==> #[trigger] passed_over(self, k),
    {
        let mut i: usize = 0;
        while i < self.nodes.len()
            invariant
                self.wf(),
                i <= self.nodes@.len(),
                forall|k: int| 0 <= k < i ==> #[trigger] passed_over(self, k),
            decreases self.nodes@.len() - i,
        {
            let node = self.nodes[i];
            if node.can_execute {
                if !node.executed && self.parents_complete(i) {
                    return Ok(Some(i));
                }
            } else if !node.can_expand {
                return Err(FlowError::with_message(ErrorKind::MethodNotImplemented,
                    "Nodes must can_execute() or can_expand()"));
            }
            i = i + 1;
        }
        Ok(None)
    }

    /// The node to expand next: the first that can expand and whose parents have all executed.
    pub fn next_to_expand(&self) -> (r: Option<usize>)
        requires
            self.wf(),
        ensures
            r matches Some(ix) ==> ix < self.nodes@.len() && self.nodes@[ix as int].can_expand
                && spec_parents_complete(self, ix as int)
                && forall|k: int| 0 <= k < ix ==> !(#[trigger] self.nodes@[k].can_expand && spec_parents_complete(self, k)),
            r is None ==> forall|k: int| 0 <= k < self.nodes@.len()
                ==> !(#[trigger] self.nodes@[k].can_expand && spec_parents_complete(self, k)),
    {
        let mut i: usize = 0;
        while i < self.nodes.len()
            invariant
                self.wf(),
                i <= self.nodes@.len(),
                forall|k: int| 0 <= k < i ==> !(#[trigger] self.nodes@[k].can_expand && spec_parents_complete(self, k)),
            decreases self.nodes@.len() - i,
        {
            if self.nodes[i].can_expand && self.parents_complete(i) {
                return Some(i);
            }
            i = i + 1;
        }
        None
    }

    /// Checks that node `ix` has the incoming edges its definition requires, and no children when
    /// it may have none; refused with `InvalidNodeConnections` otherwise.
    pub fn check_node_edges(&self, ix: usize) -> (r: Result<(), FlowError>)
        requires
            self.wf(),
            ix < self.nodes@.len(),
        ensures
            r is Err <==> (inputs_failed(self.nodes@[ix as int].edges_in,
                    count_in(self.edges@, ix as int, EdgeKind::Input, self.edges@.len() as int) as int,
                    count_in(self.edges@, ix as int, EdgeKind::Canvas, self.edges@.len() as int) as int)
                || (self.nodes@[ix as int].edges_out != EdgesOut::Any
                    && count_out(self.edges@, ix as int, self.edges@.len() as int) > 0)),
            r matches Err(e) ==> e.kind == ErrorKind::InvalidNodeConnections,
    {
        let mut inputs: usize = 0;
        let mut canvases: usize = 0;
        let mut outbound: usize = 0;
        let mut e: usize = 0;
        while e < self.edges.len()
            invariant
                e <= self.edges@.len(),
                inputs == count_in(self.edges@, ix as int, EdgeKind::Input, e as int),
                canvases == count_in(self.edges@, ix as int, EdgeKind::Canvas, e as int),
                outbound == count_out(self.edges@, ix as int, e as int),
                inputs <= e, canvases <= e, outbound <= e,
            decreases self.edges@.len() - e,
        {
            let edge = self.edges[e];
            if edge.to == ix && edge.kind == EdgeKind::Input {
                inputs = inputs + 1;
            }
            if edge.to == ix && edge.kind == EdgeKind::Canvas {
                canvases = canvases + 1;
            }
            if edge.from == ix {
                outbound = outbound + 1;
            }
            e = e + 1;
        }
        let node = self.nodes[ix];
        let failed = match node.edges_in {
            EdgesIn::NoInput => inputs > 0 || canvases > 0,
            EdgesIn::Arbitrary { inputs: want_inputs, canvases: want_canvases, .. } =>
                inputs != want_inputs as usize || canvases != want_canvases as usize,
            EdgesIn::OneInput => inputs != 1 && canvases != 0,
            EdgesIn::OneInputOneCanvas => inputs != 1 && canvases != 1,
            EdgesIn::OneOptionalInput => canvases != 0 && (inputs != 0 && inputs != 1),
        };
        if failed {
            Err(FlowError::with_message(ErrorKind::InvalidNodeConnections,
                "The node does not have the inputs and canvases its type requires"))
        } else if node.edges_out != EdgesOut::Any && outbound > 0 {
            Err(FlowError::with_message(ErrorKind::InvalidNodeConnections,
                "The node type prohibits child nodes"))
        } else {
            Ok(())
        }
    }

    /// The estimates of the parents of node `ix`, one per edge into it, in edge order.
    pub fn inputs_estimates(&self, ix: usize) -> (r: Vec<FrameEstimate>)
        requires
            self.wf(),
        ensures
            r@ == parent_estimates(self, ix as int, self.edges@.len() as int),
    {
        let mut r: Vec<FrameEstimate> = Vec::new();
        let mut e: usize = 0;
        while e < self.edges.len()
            invariant
                self.wf(),
                e <= self.edges@.len(),
                r@ == parent_estimates(self, ix as int, e as int),
            decreases self.edges@.len() - e,
        {
            let edge = self.edges[e];
            if edge.to == ix {
                r.push(self.nodes[edge.from].estimate);
            }
            e = e + 1;
        }
        r
    }

    /// Whether estimating node `ix` gives up on its parents rather than estimating them first:
    /// when some parent's estimate is impossible or only an upper bound.
    pub fn estimation_gives_up(&self, ix: usize) -> (r: bool)
        requires
            self.wf(),
        ensures
            r == gives_up(parent_estimates(self, ix as int, self.edges@.len() as int)),
    {
        let ests = self.inputs_estimates(ix);
        let mut i: usize = 0;
        while i < ests.len()
            invariant
                ests@ == parent_estimates(self, ix as int, self.edges@.len() as int),
                i <= ests@.len(),
                forall|j: int| 0 <= j < i ==> !(#[trigger] ests@[j] is Impossible || ests@[j] is UpperBound),
            decreases ests@.len() - i,
        {
            match ests[i] {
                FrameEstimate::Impossible | FrameEstimate::UpperBound(_) => {
                    assert(ests@[i as int] is Impossible || ests@[i as int] is UpperBound);
                    return true;
                },
                _ => {},
            }
            i = i + 1;
        }
        false
    }

    /// Whether every parent of node `ix` has an exact estimate.
    pub fn inputs_estimated(&self, ix: usize) -> (r: bool)
        requires
            self.wf(),
        ensures
            r == spec_parents_estimated(self, ix as int),
    {
        self.parents_estimated(ix)
    }
}

} // verus!

verus! {

/// Node `ix` has the incoming edges its definition requires, and no children where it may have
/// none.
pub open spec fn edges_ok(g: &NodeGraph, ix: int) -> bool {
    !(inputs_failed(g.nodes@[ix].edges_in,
        count_in(g.edges@, ix, EdgeKind::Input, g.edges@.len() as int) as int,
        count_in(g.edges@, ix, EdgeKind::Canvas, g.edges@.len() as int) as int)
    || (g.nodes@[ix].edges_out != EdgesOut::Any && count_out(g.edges@, ix, g.edges@.len() as int) > 0))
}

/// What running a node produced.
#[derive(Copy, Clone, Debug, PartialEq, Eq, Structural)]
pub enum NodeOutcome {
    /// Nothing, which a node that ran may not return.
    Nothing,
    /// A frame: its dimensions and format, or none where the frame pointer was null.
    Frame(Option<FrameInfo>),
    /// Encoded output.
    Encoded,
}

/// An estimate that a node does not implement is impossible; any other result stands.
pub fn estimate_or_impossible(result: Result<FrameEstimate, FlowError>) -> (r: Result<FrameEstimate, FlowError>)
    ensures
        (result matches Err(e) && e.kind == ErrorKind::MethodNotImplemented) ==> r == Ok::<FrameEstimate, FlowError>(FrameEstimate::Impossible),
        !(result matches Err(e) && e.kind == ErrorKind::MethodNotImplemented) ==> r == result,
{
    match result {
        Err(e) => {
            if e.kind == ErrorKind::MethodNotImplemented {
                Ok(FrameEstimate::Impossible)
            } else {
                Err(e)
            }
        },
        Ok(v) => Ok(v),
    }
}

impl NodeGraph {
    /// Checks the edges of every node, in order; the first node whose edges break its
    /// definition's requirement refuses the graph with `InvalidNodeConnections`.
    pub fn validate_graph_edges(&self) -> (r: Result<(), FlowError>)
        requires
            self.wf(),
        ensures
            r is Ok <==> forall|ix: int| 0 <= ix < self.nodes@.len() ==> #[trigger] edges_ok(self, ix),
            r matches Err(e) ==> e.kind == ErrorKind::InvalidNodeConnections,
    {
        let mut i: usize = 0;
        while i < self.nodes.len()
            invariant
                self.wf(),
                i <= self.nodes@.len(),
                forall|ix: int| 0 <= ix < i ==> #[trigger] edges_ok(self, ix),
            decreases self.nodes@.len() - i,
        {
            let checked = self.check_node_edges(i);
            if checked.is_err() {
                assert(!edges_ok(self, i as int));
                return checked;
            }
            i = i + 1;
        }
        Ok(())
    }

    /// Records what running node `ix` produced: the node has executed, and a frame replaces its
    /// estimate with the frame's exact dimensions. A node that produced nothing is
    /// `InvalidOperation`, and the graph is left as it was.
    pub fn record_execution(&mut self, ix: usize, outcome: NodeOutcome) -> (r: Result<(), FlowError>)
        requires
            old(self).wf(),
            ix < old(self).nodes@.len(),
        ensures
            final(self).wf(),
            final(self).edges@ == old(self).edges@,
            outcome is Nothing ==> (r matches Err(e) && e.kind == ErrorKind::InvalidOperation)
                && final(self).nodes@ == old(self).nodes@,
            !(outcome is Nothing) ==> r is Ok && final(self).nodes@ == old(self).nodes@.update(ix as int, GraphNode {
                executed: true,
                estimate: match outcome {
                    NodeOutcome::Frame(Some(info)) => FrameEstimate::Exact(info),
                    _ => old(self).nodes@[ix as int].estimate,
                },
                ..old(self).nodes@[ix as int]
            }),
    {
        let mut node = self.nodes[ix];
        match outcome {
            NodeOutcome::Nothing => {
                return Err(FlowError::with_message(ErrorKind::InvalidOperation, "Node execution returned no result"));
            },
            NodeOutcome::Frame(Some(info)) => {
                node.estimate = FrameEstimate::Exact(info);
            },
            _ => {},
        }
        node.executed = true;
        self.nodes.set(ix, node);
        Ok(())
    }

    /// Records an estimate of node `ix` where estimating succeeded; an error changes nothing.
    pub fn record_estimate(&mut self, ix: usize, result: &Result<FrameEstimate, FlowError>)
        requires
            old(self).wf(),
            ix < old(self).nodes@.len(),
        ensures
            final(self).wf(),
            final(self).edges@ == old(self).edges@,
            result matches Ok(v) ==> final(self).nodes@ == old(self).nodes@.update(ix as int,
                GraphNode { estimate: *v, ..old(self).nodes@[ix as int] }),
            result is Err ==> final(self).nodes@ == old(self).nodes@,
    {
        if let Ok(v) = result {
            let mut node = self.nodes[ix];
            node.estimate = *v;
            self.nodes.set(ix, node);
        }
    }

    /// Forgets every estimate: each node's estimate becomes unknown, and nothing else changes.
    pub fn invalidate_all_graph_estimates(&mut self)
        requires
            old(self).wf(),
        ensures
            final(self).wf(),
            final(self).edges@ == old(self).edges@,
            final(self).nodes@.len() == old(self).nodes@.len(),
            forall|i: int| 0 <= i < old(self).nodes@.len() ==> #[trigger] final(self).nodes@[i]
                == (GraphNode { estimate: FrameEstimate::Unknown, ..old(self).nodes@[i] }),
    {
        let ghost orig = old(self).nodes@;
        let mut i: usize = 0;
        while i < self.nodes.len()
            invariant
                self.wf(),
                self.edges@ == old(self).edges@,
                self.nodes@.len() == orig.len(),
                i <= orig.len(),
                forall|k: int| 0 <= k < i ==> #[trigger] self.nodes@[k] == (GraphNode { estimate: FrameEstimate::Unknown, ..orig[k] }),
                forall|k: int| i <= k < orig.len() ==> #[trigger] self.nodes@[k] == orig[k],
            decreases orig.len() - i,
        {
            let mut node = self.nodes[i];
            node.estimate = FrameEstimate::Unknown;
            self.nodes.set(i, node);
            i = i + 1;
        }
    }
}

/// The shape of a node definition: it expands from one input into other nodes, renders one
/// input onto one canvas, mutates its input bitmap, or is none of these (and answers for itself).
#[derive(Copy, Clone, Debug, PartialEq, Eq, Structural)]
pub enum NodeShape {
    OneInputExpand,
    OneInputOneCanvas,
    MutateBitmap,
    Custom,
}

impl NodeShape {
    /// The edges a node of this shape requires: one input (and any children) for an expanding or
    /// mutating node, one input and one canvas for a rendering node. A node of no known shape
    /// must answer for itself; asking the shape is refused with `MethodNotImplemented`.
    pub fn edges_required(&self) -> (r: Result<(EdgesIn, EdgesOut), FlowError>)
        ensures
            *self == NodeShape::OneInputExpand ==> r == Ok::<(EdgesIn, EdgesOut), FlowError>((EdgesIn::OneInput, EdgesOut::Any)),
            *self == NodeShape::OneInputOneCanvas ==> r == Ok::<(EdgesIn, EdgesOut), FlowError>((EdgesIn::OneInputOneCanvas, EdgesOut::Any)),
            *self == NodeShape::MutateBitmap ==> r == Ok::<(EdgesIn, EdgesOut), FlowError>((EdgesIn::OneInput, EdgesOut::Any)),
            *self == NodeShape::Custom ==> (r matches Err(e) && e.kind == ErrorKind::MethodNotImplemented),
    {
        match self {
            NodeShape::OneInputExpand => Ok((EdgesIn::OneInput, EdgesOut::Any)),
            NodeShape::OneInputOneCanvas => Ok((EdgesIn::OneInputOneCanvas, EdgesOut::Any)),
            NodeShape::MutateBitmap => Ok((EdgesIn::OneInput, EdgesOut::Any)),
            NodeShape::Custom => Err(FlowError::new(ErrorKind::MethodNotImplemented)),
        }
    }

    /// Only an expanding node is replaced by other nodes.
    pub fn can_expand(&self) -> (r: bool)
        ensures
            r == (*self == NodeShape::OneInputExpand),
    {
        match self {
            NodeShape::OneInputExpand => true,
            _ => false,
        }
    }

    /// Rendering and mutating nodes execute.
    pub fn can_execute(&self) -> (r: bool)
        ensures
            r == (*self == NodeShape::OneInputOneCanvas || *self == NodeShape::MutateBitmap),
    {
        match self {
            NodeShape::OneInputOneCanvas | NodeShape::MutateBitmap => true,
            _ => false,
        }
    }

    /// The parent whose estimate a node of this shape passes on: the canvas for a rendering
    /// node, the input for a mutating one. An expanding node estimates from its input by its own
    /// rule, and a node of no known shape answers for itself: None for both.
    pub fn estimate_source(&self) -> (r: Option<EdgeKind>)
        ensures
            *self == NodeShape::OneInputOneCanvas ==> r == Some(EdgeKind::Canvas),
            *self == NodeShape::MutateBitmap ==> r == Some(EdgeKind::Input),
            (*self == NodeShape::OneInputExpand || *self == NodeShape::Custom) ==> r is None,
    {
        match self {
            NodeShape::OneInputOneCanvas => Some(EdgeKind::Canvas),
            NodeShape::MutateBitmap => Some(EdgeKind::Input),
            _ => None,
        }
    }
}

} // verus!
