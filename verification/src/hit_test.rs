//! Finding what is under the pointer.
//!
//! Each node is tested by the rectangle that the renderer recorded for it,
//! mapped to the screen by the current transform. A node that has no
//! rectangle yet is passed over. Where rectangles overlap, the node in the
//! lowest slot is the one that is hit: nodes are tried in rising order of
//! their slots, and the first that holds the position wins.
//!
//! Curved edges are tested by their handles, their control anchors and the
//! samples of their path, each against a judgement of what is within reach
//! of the pointer. Edges, too, are tried in rising order of their slots, and
//! the first of which anything is within reach wins.
use vstd::prelude::*;
use egui::emath::TSTransform;
use egui::{Pos2, Vec2};
use crate::bezier::{
    handles_in, handles_out, is_first_near, is_first_near_at, is_grip, judge_of, positions,
    DragType, PATH_SAMPLES,
};
use crate::canvas::CanvasState;
use crate::curve::path_of;
use crate::graph::edge::{BezierEdge, Edge};
use crate::graph::graph_impl::Graph;
use crate::graph::node::Node;
use crate::graph::render_info::{get_node_render_info, NodeRenderInfo, RenderInfoCache};
use crate::order::{compare, compared, Comparison};
use crate::plane::{
    length_measured, pos_delta, pos_diff, rect_contains, rect_has, transform_scale,
    ts_apply_rect, ts_scale, vec2_from_ints, vec2_of, vec_length, vec_scale, vec_times,
};

verus! {

/// Whether the node in slot `a` was drawn where `screen_pos` is.
pub open spec fn node_hit(
    cache: Map<u32, NodeRenderInfo>,
    transform: TSTransform,
    a: u32,
    screen_pos: Pos2,
) -> bool {
    cache.contains_key(a) && rect_has(ts_apply_rect(transform, cache[a].canvas_rect), screen_pos)
}

/// Whether `hit` is the answer of a hit test at `screen_pos`: the node in the
/// lowest slot among those drawn there, or nothing when none was.
pub open spec fn is_top_hit(
    hit: Option<u32>,
    nodes: Map<u32, Node>,
    cache: Map<u32, NodeRenderInfo>,
    transform: TSTransform,
    screen_pos: Pos2,
) -> bool {
    match hit {
        Some(a) => nodes.contains_key(a) && node_hit(cache, transform, a, screen_pos)
            && forall|b: u32|
            b < a && nodes.contains_key(b) ==> !node_hit(cache, transform, b, screen_pos),
        None => forall|b: u32|
            nodes.contains_key(b) ==> !node_hit(cache, transform, b, screen_pos),
    }
}

/// A hit test has one answer.
pub proof fn lemma_top_hit_unique(
    first: Option<u32>,
    second: Option<u32>,
    nodes: Map<u32, Node>,
    cache: Map<u32, NodeRenderInfo>,
    transform: TSTransform,
    screen_pos: Pos2,
)
    requires
        is_top_hit(first, nodes, cache, transform, screen_pos),
        is_top_hit(second, nodes, cache, transform, screen_pos),
    ensures
        first == second,
{
    if first is Some && second is Some {
        let a = first->0;
        let b = second->0;
        if a < b {
            assert(!node_hit(cache, transform, a, screen_pos));
        }
        if b < a {
            assert(!node_hit(cache, transform, b, screen_pos));
        }
    }
}

/// The node under `screen_pos`, if any.
pub fn hit_test_node(
    graph: &Graph,
    canvas_state: &CanvasState,
    cache: &RenderInfoCache,
    screen_pos: Pos2,
) -> (hit: Option<u32>)
    ensures
        is_top_hit(hit, graph.nodes(), cache@, canvas_state.transform, screen_pos),
{
    let slots = graph.node_indices();
    let mut i: usize = 0;
    while i < slots.len()
        invariant
            i <= slots.len(),
            forall|i: int, j: int| 0 <= i < j < slots.len() ==> slots[i] < slots[j],
            forall|a: u32| slots@.contains(a) <==> graph.nodes().contains_key(a),
            forall|j: int|
                0 <= j < i ==> !node_hit(cache@, canvas_state.transform, slots[j], screen_pos),
        decreases slots.len() - i,
    {
        let node_index = slots[i];
        if let Some(info) = get_node_render_info(node_index, cache) {
            let node_screen_rect = canvas_state.to_screen_rect(info.canvas_rect);
            if rect_contains(&node_screen_rect, screen_pos) {
                proof {
                    assert(slots@.contains(node_index));
                    assert forall|b: u32|
                        b < node_index && graph.nodes().contains_key(b) implies !node_hit(
                        cache@,
                        canvas_state.transform,
                        b,
                        screen_pos,
                    ) by {
                        assert(slots@.contains(b));
                    }
                }
                return Some(node_index);
            }
        }
        i += 1;
    }
    proof {
        assert forall|b: u32| graph.nodes().contains_key(b) implies !node_hit(
            cache@,
            canvas_state.transform,
            b,
            screen_pos,
        ) by {
            assert(slots@.contains(b));
        }
    }
    None
}

/// How near, in screen units at scale one, the pointer must be to a part of
/// a curved edge to take hold of it.
pub const HIT_RADIUS: i16 = 10;

/// How far the pointer reaches on the canvas: the hit radius times the scale
/// of the view, in both coordinates.
pub open spec fn reach_of(transform: TSTransform) -> Vec2 {
    vec_times(vec2_of(HIT_RADIUS as int, HIT_RADIUS as int), ts_scale(transform))
}

/// The judgement of distance from the canvas position `world_pos` in the
/// view `transform`: a position is within reach when the distance from it to
/// `world_pos`, as `egui` measures it, is less than the reach of the pointer.
pub open spec fn reach_judge(transform: TSTransform, world_pos: Pos2) -> spec_fn(Pos2, bool) -> bool {
    |p: Pos2, answer: bool|
        exists|distance: Vec2|
            length_measured(pos_diff(world_pos, p), distance) && answer == (#[trigger] compared(
                distance,
                reach_of(transform),
            ).x == Comparison::Less)
}

/// Whether the canvas position `p` is within reach of the pointer at the
/// canvas position `world_pos`, in the view `transform`: whether the
/// distance between the two, as `egui` measures it, is less than the reach
/// of the pointer.
pub fn within_reach(transform: &TSTransform, world_pos: Pos2, p: Pos2) -> (near: bool)
    ensures
        reach_judge(*transform, world_pos)(p, near),
{
    let reach = vec_scale(vec2_from_ints(HIT_RADIUS, HIT_RADIUS), transform_scale(transform));
    let distance = vec_length(pos_delta(world_pos, p));
    let near = matches!(compare(distance, reach).x, Comparison::Less);
    proof {
        assert(length_measured(pos_diff(world_pos, p), distance) && near == (compared(
            distance,
            reach_of(*transform),
        ).x == Comparison::Less));
    }
    near
}

/// A search that was answered by one judgement was answered by every
/// judgement that allows the same answers.
pub proof fn lemma_first_near_by_wider_judge(
    judge: spec_fn(Pos2, bool) -> bool,
    wider: spec_fn(Pos2, bool) -> bool,
    points: Seq<Pos2>,
    from: int,
    to: int,
    found: Option<int>,
)
    requires
        forall|p: Pos2, answer: bool| #[trigger] judge(p, answer) ==> wider(p, answer),
        is_first_near(judge, points, from, to, found),
    ensures
        is_first_near(wider, points, from, to, found),
{
}

/// A grip that was found by one judgement was found by every judgement that
/// allows the same answers.
pub proof fn lemma_grip_by_wider_judge(
    judge: spec_fn(Pos2, bool) -> bool,
    wider: spec_fn(Pos2, bool) -> bool,
    edge: BezierEdge,
    world_pos: Pos2,
    grip: (DragType, Option<int>),
)
    requires
        forall|p: Pos2, answer: bool| #[trigger] judge(p, answer) ==> wider(p, answer),
        is_grip(judge, edge, world_pos, grip),
    ensures
        is_grip(wider, edge, world_pos, grip),
{
    let anchors = edge.full_anchors();
    let n = anchors.len() as int;
    let path = path_of(anchors, PATH_SAMPLES as int);
    if is_first_near(judge, handles_in(anchors), 1, n, None) {
        lemma_first_near_by_wider_judge(judge, wider, handles_in(anchors), 1, n, None);
    }
    if is_first_near(judge, handles_out(anchors), 0, n - 1, None) {
        lemma_first_near_by_wider_judge(judge, wider, handles_out(anchors), 0, n - 1, None);
    }
    if is_first_near(judge, positions(anchors), 1, n - 1, None) {
        lemma_first_near_by_wider_judge(judge, wider, positions(anchors), 1, n - 1, None);
    }
    match grip.0 {
        DragType::HandleIn => {
            lemma_first_near_by_wider_judge(judge, wider, handles_in(anchors), 1, n, grip.1);
        },
        DragType::HandleOut => {
            lemma_first_near_by_wider_judge(judge, wider, handles_out(anchors), 0, n - 1, grip.1);
        },
        DragType::Anchor => {
            lemma_first_near_by_wider_judge(judge, wider, positions(anchors), 1, n - 1, grip.1);
        },
        DragType::MoveBezier => {
            let k = choose|k: int| #[trigger] is_first_near_at(judge, path, k);
            lemma_first_near_by_wider_judge(judge, wider, path, 0, path.len() as int, Some(k));
            assert(is_first_near_at(wider, path, k));
        },
        DragType::NoDrag => {
            if is_first_near(judge, path, 0, path.len() as int, None) {
                lemma_first_near_by_wider_judge(judge, wider, path, 0, path.len() as int, None);
            }
        },
    }
}

/// An edge that was hit by one judgement was hit by every judgement that
/// allows the same answers.
pub proof fn lemma_edge_hit_by_wider_judge(
    judge: spec_fn(Pos2, bool) -> bool,
    wider: spec_fn(Pos2, bool) -> bool,
    edges: Map<u32, (u32, u32, Edge)>,
    world_pos: Pos2,
    hit: Option<(u32, DragType, Option<int>)>,
)
    requires
        forall|p: Pos2, answer: bool| #[trigger] judge(p, answer) ==> wider(p, answer),
        is_edge_hit(judge, edges, world_pos, hit),
    ensures
        is_edge_hit(wider, edges, world_pos, hit),
{
    assert forall|d: u32|
        #[trigger] edges.contains_key(d) && is_grip(
            judge,
            edges[d].2.bezier_edge,
            world_pos,
            (DragType::NoDrag, None),
        ) implies is_grip(wider, edges[d].2.bezier_edge, world_pos, (DragType::NoDrag, None)) by {
        lemma_grip_by_wider_judge(
            judge,
            wider,
            edges[d].2.bezier_edge,
            world_pos,
            (DragType::NoDrag, None),
        );
    }
    if let Some((e, drag_type, at)) = hit {
        lemma_grip_by_wider_judge(judge, wider, edges[e].2.bezier_edge, world_pos, (drag_type, at));
    }
}

/// Whether `hit` is the answer of a hit test of the curved edges at the
/// canvas position `world_pos`: the edge in the lowest slot of which
/// something is within reach, with what a press takes hold of on it; or
/// nothing when nothing of any edge is within reach.
pub open spec fn is_edge_hit(
    judge: spec_fn(Pos2, bool) -> bool,
    edges: Map<u32, (u32, u32, Edge)>,
    world_pos: Pos2,
    hit: Option<(u32, DragType, Option<int>)>,
) -> bool {
    match hit {
        Some((e, drag_type, at)) => {
            &&& edges.contains_key(e)
            &&& drag_type != DragType::NoDrag
            &&& is_grip(judge, edges[e].2.bezier_edge, world_pos, (drag_type, at))
            &&& forall|d: u32|
                d < e && #[trigger] edges.contains_key(d) ==> is_grip(
                    judge,
                    edges[d].2.bezier_edge,
                    world_pos,
                    (DragType::NoDrag, None),
                )
        },
        None => forall|d: u32| #[trigger]
            edges.contains_key(d) ==> is_grip(
                judge,
                edges[d].2.bezier_edge,
                world_pos,
                (DragType::NoDrag, None),
            ),
    }
}

/// The curved edge under the canvas position `world_pos`, if any, with what
/// a press takes hold of on it and at which anchor; `near` tells whether a
/// canvas position is within reach of the pointer.
pub fn hit_test_edge<F: Fn(Pos2) -> bool>(graph: &Graph, world_pos: Pos2, near: &F) -> (hit: Option<
    (u32, DragType, Option<usize>),
>)
    requires
        forall|p: Pos2| near.requires((p,)),
    ensures
        is_edge_hit(
            judge_of(near),
            graph.edges(),
            world_pos,
            match hit {
                Some((e, drag_type, Some(i))) => Some((e, drag_type, Some(i as int))),
                Some((e, drag_type, None)) => Some((e, drag_type, None)),
                None => None,
            },
        ),
{
    let slots = graph.edge_indices();
    let mut i: usize = 0;
    while i < slots.len()
        invariant
            i <= slots.len(),
            forall|p: Pos2| near.requires((p,)),
            forall|i: int, j: int| 0 <= i < j < slots.len() ==> slots[i] < slots[j],
            forall|e: u32| slots@.contains(e) <==> graph.edges().contains_key(e),
            forall|j: int|
                0 <= j < i ==> is_grip(
                    judge_of(near),
                    graph.edges()[#[trigger] slots[j]].2.bezier_edge,
                    world_pos,
                    (DragType::NoDrag, None),
                ),
        decreases slots.len() - i,
    {
        let edge_index = slots[i];
        proof {
            assert(slots@.contains(edge_index));
        }
        if let Some(edge) = graph.get_edge(edge_index) {
            let (drag_type, at) = edge.bezier_edge.grip_at(world_pos, near);
            if !matches!(drag_type, DragType::NoDrag) {
                proof {
                    assert forall|d: u32|
                        d < edge_index && #[trigger] graph.edges().contains_key(d) implies is_grip(
                        judge_of(near),
                        graph.edges()[d].2.bezier_edge,
                        world_pos,
                        (DragType::NoDrag, None),
                    ) by {
                        assert(slots@.contains(d));
                    }
                }
                return Some((edge_index, drag_type, at));
            }
        }
        i += 1;
    }
    proof {
        assert forall|d: u32| #[trigger] graph.edges().contains_key(d) implies is_grip(
            judge_of(near),
            graph.edges()[d].2.bezier_edge,
            world_pos,
            (DragType::NoDrag, None),
        ) by {
            assert(slots@.contains(d));
        }
    }
    None
}

} // verus!
