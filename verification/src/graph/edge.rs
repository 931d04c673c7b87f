//! Edges and their paths.
use vstd::prelude::*;
use egui::Pos2;
use crate::canvas::{next_id, CanvasState};
use crate::graph::anchor::{BezierAnchor, LineAnchor};

verus! {

/// A straight edge between two anchors.
#[derive(Clone, Copy, Debug)]
pub struct LineEdge {
    pub source: LineAnchor,
    pub target: LineAnchor,
}

impl LineEdge {
    pub fn new(source: LineAnchor, target: LineAnchor) -> (edge: Self)
        ensures
            edge.source == source,
            edge.target == target,
    {
        Self { source, target }
    }
}

/// A curved edge: cubic segments from the source anchor through the control
/// anchors, in order, to the target anchor.
#[derive(Clone, Debug)]
pub struct BezierEdge {
    pub source_anchor: BezierAnchor,
    pub target_anchor: BezierAnchor,
    pub control_anchors: Vec<BezierAnchor>,
}

impl BezierEdge {
    /// A curve from `source_anchor` to `target_anchor` with nothing between.
    pub fn new(source_anchor: BezierAnchor, target_anchor: BezierAnchor) -> (edge: Self)
        ensures
            edge.source_anchor == source_anchor,
            edge.target_anchor == target_anchor,
            edge.control_anchors@ == Seq::<BezierAnchor>::empty(),
    {
        Self { source_anchor, target_anchor, control_anchors: Vec::new() }
    }

    /// The same curve with its control anchors replaced.
    pub fn with_control_anchors(self, control_anchors: Vec<BezierAnchor>) -> (edge: Self)
        ensures
            edge.source_anchor == self.source_anchor,
            edge.target_anchor == self.target_anchor,
            edge.control_anchors == control_anchors,
    {
        Self {
            source_anchor: self.source_anchor,
            target_anchor: self.target_anchor,
            control_anchors,
        }
    }

    /// Every anchor of the curve in the order it is drawn: the source, the
    /// control anchors, the target.
    pub open spec fn full_anchors(self) -> Seq<BezierAnchor> {
        seq![self.source_anchor] + self.control_anchors@ + seq![self.target_anchor]
    }
}

/// How edges are drawn.
#[derive(Clone, Copy, Debug, PartialEq, Eq, Structural)]
pub enum EdgeType {
    Line,
    Bezier,
}

impl EdgeType {
    /// The name of the style as it is shown to the user.
    pub fn to_string(&self) -> (name: String)
        ensures
            name@ == (match *self {
                EdgeType::Line => "Line"@,
                EdgeType::Bezier => "Bezier"@,
            }),
    {
        match self {
            EdgeType::Line => "Line".to_owned(),
            EdgeType::Bezier => "Bezier".to_owned(),
        }
    }
}

/// An edge of the diagram, from the node in slot `source` to the node in slot
/// `target`, with its path in both styles.
#[derive(Clone, Debug)]
pub struct Edge {
    pub id: u64,
    pub source: u32,
    pub target: u32,
    pub text: Option<String>,
    pub bezier_edge: BezierEdge,
    pub line_edge: LineEdge,
}

impl Edge {
    /// The smooth anchor that a fresh edge has at `pos`.
    pub open spec fn fresh_anchor(pos: Pos2) -> BezierAnchor {
        BezierAnchor::smooth_at(pos)
    }

    /// An unlabelled edge between two nodes, numbered with the next edge id
    /// of `canvas_state`, running straight between the two positions given.
    pub fn new(
        source: u32,
        target: u32,
        source_canvas_pos: Pos2,
        target_canvas_pos: Pos2,
        canvas_state: &mut CanvasState,
    ) -> (edge: Self)
        ensures
            edge.id == old(canvas_state).global_edge_id,
            edge.source == source,
            edge.target == target,
            edge.text is None,
            edge.bezier_edge.source_anchor == Self::fresh_anchor(source_canvas_pos),
            edge.bezier_edge.target_anchor == Self::fresh_anchor(target_canvas_pos),
            edge.bezier_edge.control_anchors@ == Seq::<BezierAnchor>::empty(),
            edge.line_edge.source.canvas_pos == source_canvas_pos,
            edge.line_edge.target.canvas_pos == target_canvas_pos,
            final(canvas_state).global_edge_id == next_id(old(canvas_state).global_edge_id),
            final(canvas_state).global_node_id == old(canvas_state).global_node_id,
            final(canvas_state).transform == old(canvas_state).transform,
    {
        let edge_id = canvas_state.new_edge_id();
        Self {
            id: edge_id,
            source,
            target,
            text: None,
            bezier_edge: BezierEdge::new(
                BezierAnchor::new_smooth(source_canvas_pos),
                BezierAnchor::new_smooth(target_canvas_pos),
            ),
            line_edge: LineEdge::new(
                LineAnchor::new(source_canvas_pos),
                LineAnchor::new(target_canvas_pos),
            ),
        }
    }
}

} // verus!
