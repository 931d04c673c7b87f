//! Laying the path of an edge between the rectangles of its two nodes.
//!
//! An edge runs from centre to centre and is cut where it leaves the one
//! rectangle and where it enters the other. Where other edges join the same
//! two nodes, both centres are first pushed across the line between them.
//! Each of the edges has a lane of its own, and the lanes lie evenly to both
//! sides of the line from centre to centre, so that the edges come apart
//! whichever way they run.
//!
//! `EdgeWidget::update_bezier_edge` and `update_line_edge` do all of it;
//! `route_ends` says from where to where the line runs, and
//! `place_bezier_edge` and `place_line_edge` put the path between two
//! crossings that are known. A node that was not drawn yet has no rectangle;
//! its edges are left as they are until it has one.
use vstd::prelude::*;
use egui::{Pos2, Rect, Vec2};
use crate::geometry::{
    crossing_of, edge_offset_direction, intersect_rect_with_pos, is_offset_direction,
    IntersectDirection,
};
use crate::graph::anchor::{mirror, mirrored, BezierAnchor, LineAnchor};
use crate::graph::edge::{Edge, LineEdge};
use crate::graph::graph_impl::{joins, lemma_rank_rises, Graph};
use crate::graph::render_info::{get_node_render_info, NodeRenderInfo, RenderInfoCache};
use crate::plane::{pos_add, pos_plus, rect_center, vec2_from_ints, vec2_of, vec_scale, vec_times};

verus! {

/// How far apart, in canvas units, the middle of the line and the lane next
/// to it lie; two neighbouring lanes lie twice as far apart.
pub const PARALLEL_EDGE_OFFSET: i16 = 10;

/// The most edges between two nodes that are given lanes of their own. Where
/// more edges join two nodes, all of them run in the middle.
pub const MAX_LANES: usize = 0x7FFF;

/// How far, in canvas units, a handle of a routed curve stands from its end.
pub const ROUTED_HANDLE_REACH: i16 = 50;

/// The edge in one slot of the graph, to be routed.
#[derive(Debug, Clone, Copy)]
pub struct EdgeWidget {
    pub edge_index: u32,
}

/// From where to where the line of an edge runs, and the two rectangles it
/// is to be cut at.
#[derive(Debug, Clone, Copy)]
pub struct RouteEnds {
    pub source_rect: Rect,
    pub target_rect: Rect,
    pub source_center: Pos2,
    pub target_center: Pos2,
}

/// The lane of the edge at place `rank` among `count` edges that join the
/// same two nodes. The lanes are numbered from one side to the other in
/// steps of two, with the middle of the line at zero: two edges run in the
/// lanes 1 and -1, three in 2, 0 and -2.
pub open spec fn lane_of(rank: int, count: int) -> int {
    if count > MAX_LANES {
        0
    } else {
        (count - 1) - 2 * rank
    }
}

/// The lane of the edge in slot `edge_index` among the edges that join the
/// same two nodes as it does, in either direction. The edges take their
/// lanes in the order of their slots.
pub open spec fn lane_number(graph: Graph, edge_index: u32) -> int {
    let source = graph.edges()[edge_index].0;
    let target = graph.edges()[edge_index].1;
    lane_of(
        graph.edges_between_below(source, target, Some(edge_index)).len() as int,
        graph.edges_between(source, target).len() as int,
    )
}

/// The offset by which both centres are pushed aside for the lane `lane`,
/// in the direction `across`: the offset to the first lane, `lane` times.
pub open spec fn parallel_offset(across: Vec2, lane: int) -> Vec2 {
    vec_times(
        vec_times(across, vec2_of(PARALLEL_EDGE_OFFSET as int, PARALLEL_EDGE_OFFSET as int)),
        vec2_of(lane, lane),
    )
}

/// Whether `across` is the direction in which the edges between the two
/// nodes of the edge in slot `edge_index` are pushed aside: the direction
/// across the line from the centre of the node in the lower slot to the
/// centre of the node in the higher slot, whichever way the edge runs.
/// Where nothing is to be routed, any direction will do.
pub open spec fn is_across(
    graph: Graph,
    cache: Map<u32, NodeRenderInfo>,
    edge_index: u32,
    across: Vec2,
) -> bool {
    if !graph.edges().contains_key(edge_index) {
        true
    } else {
        let source = graph.edges()[edge_index].0;
        let target = graph.edges()[edge_index].1;
        let first = if source <= target {
            source
        } else {
            target
        };
        let second = if source <= target {
            target
        } else {
            source
        };
        cache.contains_key(source) && cache.contains_key(target) ==> is_offset_direction(
            rect_center(cache[first].canvas_rect),
            rect_center(cache[second].canvas_rect),
            across,
        )
    }
}

/// The line of the edge in slot `edge_index`, if the edge is there and both
/// its nodes were drawn. `across` is the direction in which the centres are
/// pushed aside when the edge is not alone between its nodes; how far, and
/// to which side, goes by the lane of the edge.
pub open spec fn route_of(
    graph: Graph,
    cache: Map<u32, NodeRenderInfo>,
    edge_index: u32,
    across: Vec2,
) -> Option<RouteEnds> {
    if !graph.edges().contains_key(edge_index) {
        None
    } else {
        let source = graph.edges()[edge_index].0;
        let target = graph.edges()[edge_index].1;
        if !cache.contains_key(source) || !cache.contains_key(target) {
            None
        } else {
            let source_center = rect_center(cache[source].canvas_rect);
            let target_center = rect_center(cache[target].canvas_rect);
            let alone = graph.edges_between(source, target).len() == 1;
            let offset = parallel_offset(across, lane_number(graph, edge_index));
            Some(
                RouteEnds {
                    source_rect: cache[source].canvas_rect,
                    target_rect: cache[target].canvas_rect,
                    source_center: if alone {
                        source_center
                    } else {
                        pos_plus(source_center, offset)
                    },
                    target_center: if alone {
                        target_center
                    } else {
                        pos_plus(target_center, offset)
                    },
                },
            )
        }
    }
}

/// Whether `ends` is the line of the edge in slot `edge_index` with the
/// centres pushed aside in the direction `across`, and `across` is the
/// direction across the line between the two nodes.
pub open spec fn is_route(
    graph: Graph,
    cache: Map<u32, NodeRenderInfo>,
    edge_index: u32,
    across: Vec2,
    ends: Option<RouteEnds>,
) -> bool {
    is_across(graph, cache, edge_index, across) && ends == route_of(
        graph,
        cache,
        edge_index,
        across,
    )
}

/// Two edges that join the same two nodes, in whichever directions, are
/// pushed aside across the same line, and each runs in a lane of its own,
/// as long as there are no more of them than can have lanes.
pub proof fn lemma_parallel_edges_keep_apart(
    graph: Graph,
    cache: Map<u32, NodeRenderInfo>,
    e1: u32,
    e2: u32,
    across: Vec2,
)
    requires
        graph.edges().contains_key(e1),
        graph.edges().contains_key(e2),
        e1 != e2,
        joins(
            graph.edges()[e1].0,
            graph.edges()[e1].1,
            graph.edges()[e2].0,
            graph.edges()[e2].1,
        ),
        graph.edges_between(graph.edges()[e1].0, graph.edges()[e1].1).len() <= MAX_LANES,
    ensures
        lane_number(graph, e1) != lane_number(graph, e2),
        is_across(graph, cache, e1, across) == is_across(graph, cache, e2, across),
        graph.edges_between(graph.edges()[e1].0, graph.edges()[e1].1).len() == 2 ==> lane_number(
            graph,
            e1,
        ) == -lane_number(graph, e2) && (lane_number(graph, e1) == 1 || lane_number(graph, e1)
            == -1),
{
    let a = graph.edges()[e1].0;
    let b = graph.edges()[e1].1;
    let c = graph.edges()[e2].0;
    let d = graph.edges()[e2].1;
    assert(graph.edges_between(c, d) =~= graph.edges_between(a, b));
    assert(graph.edges_between_below(c, d, Some(e2)) =~= graph.edges_between_below(
        a,
        b,
        Some(e2),
    ));
    assert(graph.edges_between(a, b).contains(e1));
    assert(graph.edges_between(a, b).contains(e2));
    if e1 < e2 {
        lemma_rank_rises(graph, a, b, e1, e2);
    } else {
        lemma_rank_rises(graph, a, b, e2, e1);
    }
}

/// The offset from the end of a routed curve to its handle: straight out of
/// the side the curve leaves the rectangle through.
pub open spec fn handle_offset(side: IntersectDirection) -> Vec2 {
    match side {
        IntersectDirection::Left => vec2_of(-(ROUTED_HANDLE_REACH as int), 0),
        IntersectDirection::Right => vec2_of(ROUTED_HANDLE_REACH as int, 0),
        IntersectDirection::Top => vec2_of(0, -(ROUTED_HANDLE_REACH as int)),
        IntersectDirection::Bottom => vec2_of(0, ROUTED_HANDLE_REACH as int),
    }
}

/// The source end of a routed curve at the crossing `pos` on the side
/// `side`: a smooth anchor whose outbound handle, the one the curve leaves
/// by, stands straight out of the side, with the inbound handle opposite.
pub open spec fn routed_source(pos: Pos2, side: IntersectDirection) -> BezierAnchor {
    let handle_out = pos_plus(pos, handle_offset(side));
    BezierAnchor {
        canvas_pos: pos,
        handle_in_canvas_pos: mirrored(pos, handle_out),
        handle_out_canvas_pos: handle_out,
        is_smooth: true,
    }
}

/// The target end of a routed curve at the crossing `pos` on the side
/// `side`: a smooth anchor whose inbound handle, the one the curve arrives
/// by, stands straight out of the side, with the outbound handle opposite.
pub open spec fn routed_target(pos: Pos2, side: IntersectDirection) -> BezierAnchor {
    let handle_in = pos_plus(pos, handle_offset(side));
    BezierAnchor {
        canvas_pos: pos,
        handle_in_canvas_pos: handle_in,
        handle_out_canvas_pos: mirrored(pos, handle_in),
        is_smooth: true,
    }
}

/// Builds the offset of `handle_offset`.
fn handle_offset_for(side: IntersectDirection) -> (offset: Vec2)
    ensures
        offset == handle_offset(side),
{
    match side {
        IntersectDirection::Left => vec2_from_ints(-ROUTED_HANDLE_REACH, 0),
        IntersectDirection::Right => vec2_from_ints(ROUTED_HANDLE_REACH, 0),
        IntersectDirection::Top => vec2_from_ints(0, -ROUTED_HANDLE_REACH),
        IntersectDirection::Bottom => vec2_from_ints(0, ROUTED_HANDLE_REACH),
    }
}

/// Builds the anchor of `routed_source`.
fn routed_source_at(pos: Pos2, side: IntersectDirection) -> (anchor: BezierAnchor)
    ensures
        anchor == routed_source(pos, side),
        anchor.wf(),
{
    let handle_out = pos_add(pos, handle_offset_for(side));
    BezierAnchor::new_smooth(pos).with_handles(mirror(pos, handle_out), handle_out)
}

/// Builds the anchor of `routed_target`.
fn routed_target_at(pos: Pos2, side: IntersectDirection) -> (anchor: BezierAnchor)
    ensures
        anchor == routed_target(pos, side),
        anchor.wf(),
{
    let handle_in = pos_add(pos, handle_offset_for(side));
    BezierAnchor::new_smooth(pos).with_handles(handle_in, mirror(pos, handle_in))
}

/// The lane of `lane_of`, for an edge at a place below `count`.
fn lane_for(rank: usize, count: usize) -> (lane: i16)
    requires
        rank < count,
    ensures
        lane == lane_of(rank as int, count as int),
{
    if count > MAX_LANES {
        0
    } else {
        let twice: i32 = 2 * (rank as i32);
        let last: i32 = count as i32 - 1;
        (last - twice) as i16
    }
}

impl EdgeWidget {
    /// From where to where the line of this edge runs. Nothing is returned,
    /// and nothing is to be routed in this frame, when the edge is not in the
    /// graph or one of its nodes was not drawn yet. An edge that is not
    /// alone between its nodes is pushed aside into its lane, across the
    /// line from the centre of the node in the lower slot to the centre of
    /// the node in the higher slot.
    pub fn route_ends(&self, graph: &Graph, cache: &RenderInfoCache) -> (ends: Option<RouteEnds>)
        ensures
            exists|across: Vec2| #[trigger] is_route(*graph, cache@, self.edge_index, across, ends),
    {
        let (src_node_index, dst_node_index) = match graph.edge_endpoints(self.edge_index) {
            Some(ends) => ends,
            None => {
                proof {
                    assert(is_route(*graph, cache@, self.edge_index, vec2_of(0, 0), None));
                }
                return None;
            },
        };
        let src_node_render_info = get_node_render_info(src_node_index, cache);
        let dst_node_render_info = get_node_render_info(dst_node_index, cache);
        match (src_node_render_info, dst_node_render_info) {
            (Some(src_info), Some(dst_info)) => {
                let offset_dir = if src_node_index <= dst_node_index {
                    edge_offset_direction(src_info.canvas_center(), dst_info.canvas_center())
                } else {
                    edge_offset_direction(dst_info.canvas_center(), src_info.canvas_center())
                };
                let ends = self.route_ends_across(graph, cache, offset_dir);
                proof {
                    assert(is_route(*graph, cache@, self.edge_index, offset_dir, ends));
                }
                ends
            },
            _ => {
                proof {
                    assert(is_route(*graph, cache@, self.edge_index, vec2_of(0, 0), None));
                }
                None
            },
        }
    }

    /// The same, with the direction to push aside in given.
    pub fn route_ends_across(&self, graph: &Graph, cache: &RenderInfoCache, across: Vec2) -> (ends:
        Option<RouteEnds>)
        ensures
            ends == route_of(*graph, cache@, self.edge_index, across),
    {
        let (src_node_index, dst_node_index) = match graph.edge_endpoints(self.edge_index) {
            Some(ends) => ends,
            None => {
                return None;
            },
        };
        let edge_count = graph.edge_count_undirected(src_node_index, dst_node_index);
        let edge_rank = graph.edge_rank_undirected(
            src_node_index,
            dst_node_index,
            self.edge_index,
        );
        proof {
            let all = graph.edges_between(src_node_index, dst_node_index);
            let below = graph.edges_between_below(
                src_node_index,
                dst_node_index,
                Some(self.edge_index),
            );
            assert(all.contains(self.edge_index));
            assert(below.insert(self.edge_index).subset_of(all));
            vstd::set_lib::lemma_len_subset(below.insert(self.edge_index), all);
        }
        let src_node_render_info = get_node_render_info(src_node_index, cache);
        let dst_node_render_info = get_node_render_info(dst_node_index, cache);
        match (src_node_render_info, dst_node_render_info) {
            (Some(src_info), Some(dst_info)) => {
                let mut src_center = src_info.canvas_center();
                let mut dst_center = dst_info.canvas_center();
                if edge_count != 1 {
                    let lane = lane_for(edge_rank, edge_count);
                    let offset = vec_scale(
                        vec_scale(
                            across,
                            vec2_from_ints(PARALLEL_EDGE_OFFSET, PARALLEL_EDGE_OFFSET),
                        ),
                        vec2_from_ints(lane, lane),
                    );
                    src_center = pos_add(src_center, offset);
                    dst_center = pos_add(dst_center, offset);
                }
                Some(
                    RouteEnds {
                        source_rect: src_info.canvas_rect,
                        target_rect: dst_info.canvas_rect,
                        source_center: src_center,
                        target_center: dst_center,
                    },
                )
            },
            _ => None,
        }
    }

    /// Puts the curve of this edge between the two crossings: each end gets
    /// a smooth anchor at its crossing, with the handle on the side of the
    /// curve straight out of the side that was crossed and the other handle
    /// opposite; the control anchors stay. Nothing changes when a crossing
    /// is missing or the edge is not in the graph.
    pub fn place_bezier_edge(
        &self,
        graph: &mut Graph,
        source_crossing: Option<(Pos2, IntersectDirection)>,
        target_crossing: Option<(Pos2, IntersectDirection)>,
    )
        ensures
            bezier_placed(
                *old(graph),
                *final(graph),
                self.edge_index,
                source_crossing,
                target_crossing,
            ),
            old(graph).wf() ==> final(graph).wf(),
    {
        match (source_crossing, target_crossing) {
            (Some((source_canvas_pos, source_dir)), Some((target_canvas_pos, target_dir))) => {
                let source_anchor = routed_source_at(source_canvas_pos, source_dir);
                let target_anchor = routed_target_at(target_canvas_pos, target_dir);
                graph.set_bezier_ends(self.edge_index, source_anchor, target_anchor);
            },
            _ => {},
        }
    }

    /// Puts the straight path of this edge between the two crossings.
    /// Nothing changes when a crossing is missing or the edge is not in the
    /// graph.
    pub fn place_line_edge(
        &self,
        graph: &mut Graph,
        source_crossing: Option<(Pos2, IntersectDirection)>,
        target_crossing: Option<(Pos2, IntersectDirection)>,
    )
        ensures
            line_placed(
                *old(graph),
                *final(graph),
                self.edge_index,
                source_crossing,
                target_crossing,
            ),
            old(graph).wf() ==> final(graph).wf(),
    {
        match (source_crossing, target_crossing) {
            (Some((source_canvas_pos, _)), Some((target_canvas_pos, _))) => {
                if graph.get_edge(self.edge_index).is_some() {
                    let new_line_edge = LineEdge::new(
                        LineAnchor::new(source_canvas_pos),
                        LineAnchor::new(target_canvas_pos),
                    );
                    graph.update_line_edge(self.edge_index, new_line_edge);
                }
            },
            _ => {},
        }
    }

    /// Lays the curve of this edge anew: from the centre of the one node's
    /// rectangle towards the centre of the other's, pushed aside into the
    /// lane of the edge when it is not alone between its nodes, across the
    /// line from centre to centre, cut where it leaves the one rectangle
    /// and where it enters the other. Both ends come out smooth. Nothing changes while one
    /// of the nodes was not drawn yet, or when the line has no direction.
    pub fn update_bezier_edge(&self, graph: &mut Graph, cache: &RenderInfoCache)
        ensures
            exists|across: Vec2| #[trigger]
                bezier_routed(*old(graph), *final(graph), cache@, self.edge_index, across),
            old(graph).wf() ==> final(graph).wf(),
    {
        let ends = self.route_ends(graph, cache);
        let ghost across = choose|across: Vec2| #[trigger]
            is_route(*graph, cache@, self.edge_index, across, ends);
        match ends {
            Some(ends) => {
                let source = intersect_rect_with_pos(
                    ends.source_rect,
                    ends.source_center,
                    ends.target_center,
                );
                let target = intersect_rect_with_pos(
                    ends.target_rect,
                    ends.target_center,
                    ends.source_center,
                );
                self.place_bezier_edge(graph, source, target);
            },
            None => {},
        }
        proof {
            assert(bezier_routed(*old(graph), *graph, cache@, self.edge_index, across));
        }
    }

    /// Lays the straight path of this edge anew, in the same way as
    /// `update_bezier_edge` lays the curve.
    pub fn update_line_edge(&self, graph: &mut Graph, cache: &RenderInfoCache)
        ensures
            exists|across: Vec2| #[trigger]
                line_routed(*old(graph), *final(graph), cache@, self.edge_index, across),
            old(graph).wf() ==> final(graph).wf(),
    {
        let ends = self.route_ends(graph, cache);
        let ghost across = choose|across: Vec2| #[trigger]
            is_route(*graph, cache@, self.edge_index, across, ends);
        match ends {
            Some(ends) => {
                let source = intersect_rect_with_pos(
                    ends.source_rect,
                    ends.source_center,
                    ends.target_center,
                );
                let target = intersect_rect_with_pos(
                    ends.target_rect,
                    ends.target_center,
                    ends.source_center,
                );
                self.place_line_edge(graph, source, target);
            },
            None => {},
        }
        proof {
            assert(line_routed(*old(graph), *graph, cache@, self.edge_index, across));
        }
    }
}

/// Where the line `ends` leaves the rectangle of the source node. There is
/// no crossing without a line.
pub open spec fn source_crossing(ends: Option<RouteEnds>) -> Option<(Pos2, IntersectDirection)> {
    match ends {
        Some(ends) => crossing_of(ends.source_rect, ends.source_center, ends.target_center),
        None => None,
    }
}

/// Where the line `ends`, run the other way, leaves the rectangle of the
/// target node.
pub open spec fn target_crossing(ends: Option<RouteEnds>) -> Option<(Pos2, IntersectDirection)> {
    match ends {
        Some(ends) => crossing_of(ends.target_rect, ends.target_center, ends.source_center),
        None => None,
    }
}

/// Whether `g1` is `g0` with the curve of the edge in slot `edge_index` put
/// between the two crossings; nothing changes when a crossing is missing or
/// the edge is not in the graph.
pub open spec fn bezier_placed(
    g0: Graph,
    g1: Graph,
    edge_index: u32,
    source_crossing: Option<(Pos2, IntersectDirection)>,
    target_crossing: Option<(Pos2, IntersectDirection)>,
) -> bool {
    &&& g1.nodes() == g0.nodes()
    &&& g1.edge_type == g0.edge_type
    &&& g1.selected == g0.selected
    &&& g1.editing_node == g0.editing_node
    &&& match (source_crossing, target_crossing) {
        (Some(s), Some(t)) if g0.edges().contains_key(edge_index) => {
            let before = g0.edges()[edge_index];
            let after = g1.edges()[edge_index];
            &&& g1.edges() == g0.edges().insert(edge_index, after)
            &&& after.0 == before.0
            &&& after.1 == before.1
            &&& after.2.id == before.2.id
            &&& after.2.source == before.2.source
            &&& after.2.target == before.2.target
            &&& after.2.text == before.2.text
            &&& after.2.line_edge == before.2.line_edge
            &&& after.2.bezier_edge.control_anchors == before.2.bezier_edge.control_anchors
            &&& after.2.bezier_edge.source_anchor == routed_source(s.0, s.1)
            &&& after.2.bezier_edge.target_anchor == routed_target(t.0, t.1)
        },
        _ => g1.edges() == g0.edges(),
    }
}

/// Whether `g1` is `g0` with the straight path of the edge in slot
/// `edge_index` put between the two crossings; nothing changes when a
/// crossing is missing or the edge is not in the graph.
pub open spec fn line_placed(
    g0: Graph,
    g1: Graph,
    edge_index: u32,
    source_crossing: Option<(Pos2, IntersectDirection)>,
    target_crossing: Option<(Pos2, IntersectDirection)>,
) -> bool {
    &&& g1.nodes() == g0.nodes()
    &&& g1.edge_type == g0.edge_type
    &&& g1.selected == g0.selected
    &&& g1.editing_node == g0.editing_node
    &&& match (source_crossing, target_crossing) {
        (Some(s), Some(t)) if g0.edges().contains_key(edge_index) => {
            let before = g0.edges()[edge_index];
            g1.edges() == g0.edges().insert(
                edge_index,
                (
                    before.0,
                    before.1,
                    (Edge {
                        line_edge: LineEdge {
                            source: LineAnchor { canvas_pos: s.0 },
                            target: LineAnchor { canvas_pos: t.0 },
                        },
                        ..before.2
                    }),
                ),
            )
        },
        _ => g1.edges() == g0.edges(),
    }
}

/// Whether `g1` is `g0` with the curve of the edge in slot `edge_index` laid
/// anew, pushed aside in the direction `across`, and `across` is the
/// direction across the line between the two nodes of the edge.
pub open spec fn bezier_routed(
    g0: Graph,
    g1: Graph,
    cache: Map<u32, NodeRenderInfo>,
    edge_index: u32,
    across: Vec2,
) -> bool {
    let route = route_of(g0, cache, edge_index, across);
    is_across(g0, cache, edge_index, across) && bezier_placed(
        g0,
        g1,
        edge_index,
        source_crossing(route),
        target_crossing(route),
    )
}

/// Whether `g1` is `g0` with the straight path of the edge in slot
/// `edge_index` laid anew, pushed aside in the direction `across`, and
/// `across` is the direction across the line between the two nodes of the
/// edge.
pub open spec fn line_routed(
    g0: Graph,
    g1: Graph,
    cache: Map<u32, NodeRenderInfo>,
    edge_index: u32,
    across: Vec2,
) -> bool {
    let route = route_of(g0, cache, edge_index, across);
    is_across(g0, cache, edge_index, across) && line_placed(
        g0,
        g1,
        edge_index,
        source_crossing(route),
        target_crossing(route),
    )
}

/// A curve that was put between two crossings has smooth ends, each with
/// its handles mirrored through it.
pub proof fn lemma_placed_ends_are_smooth(
    g0: Graph,
    g1: Graph,
    edge_index: u32,
    source_crossing: Option<(Pos2, IntersectDirection)>,
    target_crossing: Option<(Pos2, IntersectDirection)>,
)
    requires
        bezier_placed(g0, g1, edge_index, source_crossing, target_crossing),
        g0.edges().contains_key(edge_index),
        source_crossing is Some,
        target_crossing is Some,
    ensures
        g1.edges().contains_key(edge_index),
        g1.edges()[edge_index].2.bezier_edge.source_anchor.is_smooth,
        g1.edges()[edge_index].2.bezier_edge.source_anchor.is_mirrored(),
        g1.edges()[edge_index].2.bezier_edge.target_anchor.is_smooth,
        g1.edges()[edge_index].2.bezier_edge.target_anchor.is_mirrored(),
{
}

} // verus!
