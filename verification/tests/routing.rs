use diagram_core::canvas::CanvasState;
use diagram_core::geometry::{
    crossing_side, edge_offset_direction, first_crossing, intersect_rect_simple,
    intersect_rect_with_pos, widget_screen_pos, IntersectDirection,
};
use diagram_core::order::{compare, Compared, Comparison};
use diagram_core::graph::anchor::BezierAnchor;
use diagram_core::graph::edge::{BezierEdge, Edge};
use diagram_core::graph::graph_impl::Graph;
use diagram_core::graph::node::Node;
use diagram_core::graph::render_info::{NodeRenderInfo, RenderInfoCache};
use diagram_core::routing::{EdgeWidget, PARALLEL_EDGE_OFFSET, ROUTED_HANDLE_REACH};
use egui::{pos2, vec2, Pos2, Rect};

fn node_at(id: u64, x: f32, y: f32) -> Node {
    Node { id, position: pos2(x, y), text: String::new(), note: String::new() }
}

fn square_around(x: f32, y: f32) -> NodeRenderInfo {
    NodeRenderInfo { canvas_rect: Rect::from_min_max(pos2(x - 20.0, y - 10.0), pos2(x + 20.0, y + 10.0)) }
}

/// The crossing, worked out on the coordinates directly.
fn direct(rect: Rect, src: Pos2, dst: Pos2) -> Option<(Pos2, IntersectDirection)> {
    let dx = dst.x - src.x;
    let dy = dst.y - src.y;
    if dst.x == src.x && dst.y == src.y {
        return None;
    }
    let mut candidates: Vec<(f32, Pos2)> = Vec::new();
    if dx > 0.0 || dx < 0.0 {
        let side = if dx > 0.0 { rect.max.x } else { rect.min.x };
        let t = (side - src.x) / dx;
        if t >= 0.0 {
            let y = src.y + t * dy;
            if y >= rect.min.y && y <= rect.max.y {
                candidates.push((t, pos2(side, y)));
            }
        }
    }
    if dy > 0.0 || dy < 0.0 {
        let side = if dy > 0.0 { rect.max.y } else { rect.min.y };
        let t = (side - src.y) / dy;
        if t >= 0.0 {
            let x = src.x + t * dx;
            if x >= rect.min.x && x <= rect.max.x {
                candidates.push((t, pos2(x, side)));
            }
        }
    }
    let mut best: Option<(f32, Pos2)> = None;
    for (t, p) in candidates {
        best = match best {
            Some((bt, bp)) if !(bt > t) => Some((bt, bp)),
            _ => Some((t, p)),
        };
    }
    let (_, pos) = best?;
    let side = if pos.x == rect.max.x {
        IntersectDirection::Right
    } else if pos.x == rect.min.x {
        IntersectDirection::Left
    } else if pos.y == rect.max.y {
        IntersectDirection::Bottom
    } else if pos.y == rect.min.y {
        IntersectDirection::Top
    } else {
        IntersectDirection::Left
    };
    Some((pos, side))
}

fn on_border(rect: Rect, p: Pos2, side: IntersectDirection) -> bool {
    let inside = rect.min.x <= p.x && p.x <= rect.max.x && rect.min.y <= p.y && p.y <= rect.max.y;
    inside
        && match side {
            IntersectDirection::Left => p.x == rect.min.x,
            IntersectDirection::Right => p.x == rect.max.x,
            IntersectDirection::Top => p.y == rect.min.y,
            IntersectDirection::Bottom => p.y == rect.max.y,
        }
}

#[test]
fn a_ray_from_the_centre_leaves_through_the_side_it_points_at() {
    let rect = Rect::from_min_max(pos2(0.0, 0.0), pos2(40.0, 20.0));
    let c = pos2(20.0, 10.0);
    assert_eq!(
        intersect_rect_with_pos(rect, c, pos2(100.0, 10.0)),
        Some((pos2(40.0, 10.0), IntersectDirection::Right))
    );
    assert_eq!(
        intersect_rect_with_pos(rect, c, pos2(-100.0, 10.0)),
        Some((pos2(0.0, 10.0), IntersectDirection::Left))
    );
    assert_eq!(
        intersect_rect_with_pos(rect, c, pos2(20.0, 100.0)),
        Some((pos2(20.0, 20.0), IntersectDirection::Bottom))
    );
    assert_eq!(
        intersect_rect_with_pos(rect, c, pos2(20.0, -100.0)),
        Some((pos2(20.0, 0.0), IntersectDirection::Top))
    );
    assert_eq!(
        intersect_rect_with_pos(rect, c, pos2(60.0, 15.0)),
        Some((pos2(40.0, 12.5), IntersectDirection::Right))
    );
    assert_eq!(
        intersect_rect_with_pos(rect, c, pos2(25.0, 30.0)),
        Some((pos2(22.5, 20.0), IntersectDirection::Bottom))
    );
    assert_eq!(
        intersect_rect_simple(rect, pos2(25.0, 30.0)),
        Some((pos2(22.5, 20.0), IntersectDirection::Bottom))
    );
}

#[test]
fn a_ray_through_a_corner_is_reported_on_the_upright_side() {
    let rect = Rect::from_min_max(pos2(0.0, 0.0), pos2(40.0, 20.0));
    let c = pos2(20.0, 10.0);
    assert_eq!(
        intersect_rect_with_pos(rect, c, pos2(60.0, 30.0)),
        Some((pos2(40.0, 20.0), IntersectDirection::Right))
    );
    assert_eq!(
        intersect_rect_with_pos(rect, c, pos2(-20.0, -10.0)),
        Some((pos2(0.0, 0.0), IntersectDirection::Left))
    );
}

#[test]
fn a_ray_without_a_direction_leaves_nowhere() {
    let rect = Rect::from_min_max(pos2(0.0, 0.0), pos2(40.0, 20.0));
    let c = pos2(20.0, 10.0);
    assert_eq!(intersect_rect_with_pos(rect, c, c), None);
    assert_eq!(intersect_rect_simple(rect, c), None);
    assert_eq!(intersect_rect_with_pos(rect, pos2(0.0, 0.0), pos2(-0.0, 0.0)), None);
    let nan = pos2(f32::NAN, f32::NAN);
    assert_eq!(intersect_rect_with_pos(rect, c, nan), None);
    assert_eq!(intersect_rect_with_pos(rect, nan, c), None);
}

#[test]
fn the_shortest_ray_has_a_direction() {
    let origin = pos2(0.0, 0.0);
    let around = Rect::from_min_max(pos2(-1.0, -1.0), pos2(1.0, 1.0));
    assert_eq!(
        intersect_rect_with_pos(around, origin, pos2(1e-10, 0.0)),
        Some((pos2(1.0, 0.0), IntersectDirection::Right))
    );
    assert_eq!(
        intersect_rect_simple(around, pos2(0.0, -1e-20)),
        Some((pos2(0.0, -1.0), IntersectDirection::Top))
    );
    assert_eq!(
        intersect_rect_with_pos(around, origin, pos2(2e-7, 0.0)),
        Some((pos2(1.0, 0.0), IntersectDirection::Right))
    );
    assert_eq!(
        intersect_rect_with_pos(around, origin, pos2(1e-7, 2e-7)),
        Some((pos2(0.5, 1.0), IntersectDirection::Bottom))
    );
    assert_eq!(
        intersect_rect_with_pos(around, origin, pos2(-1e-30, 0.0)),
        Some((pos2(-1.0, 0.0), IntersectDirection::Left))
    );
    let inside = pos2(0.5, 0.25);
    assert_eq!(
        intersect_rect_with_pos(around, inside, pos2(0.5, 0.25 + 1e-7)),
        Some((pos2(0.5, 1.0), IntersectDirection::Bottom))
    );
}

#[test]
fn a_ray_that_starts_outside_and_points_away_leaves_nowhere() {
    let rect = Rect::from_min_max(pos2(0.0, 0.0), pos2(40.0, 20.0));
    assert_eq!(
        intersect_rect_with_pos(rect, pos2(100.0, 10.0), pos2(200.0, 10.0)),
        None
    );
    assert_eq!(
        intersect_rect_with_pos(rect, pos2(-100.0, 10.0), pos2(200.0, 10.0)),
        Some((pos2(40.0, 10.0), IntersectDirection::Right))
    );
}

#[test]
fn crossings_lie_on_the_border_and_on_the_side_reported() {
    let mut seed: u32 = 2024;
    let mut next = move || {
        seed = seed.wrapping_mul(1664525).wrapping_add(1013904223);
        ((seed >> 8) % 4001) as f32 / 8.0 - 250.0
    };
    let mut seen = [0usize; 4];
    for _ in 0..2000 {
        let (x0, y0) = (next(), next());
        let rect = Rect::from_min_max(pos2(x0, y0), pos2(x0 + 1.0 + next().abs(), y0 + 1.0 + next().abs()));
        let c = rect.center();
        let p = pos2(next(), next());
        let found = intersect_rect_simple(rect, p);
        assert_eq!(found, direct(rect, c, p));
        if p != c {
            let (pos, side) = found.unwrap();
            assert!(on_border(rect, pos, side), "{:?} {:?} {:?} {:?}", rect, p, pos, side);
            seen[match side {
                IntersectDirection::Left => 0,
                IntersectDirection::Right => 1,
                IntersectDirection::Top => 2,
                IntersectDirection::Bottom => 3,
            }] += 1;
        }
    }
    assert!(seen.iter().all(|&n| n > 50), "{:?}", seen);
}

#[test]
fn crossings_equal_the_direct_working_for_any_start() {
    let mut seed: u32 = 99;
    let mut next = move || {
        seed = seed.wrapping_mul(1664525).wrapping_add(1013904223);
        ((seed >> 8) % 2001) as f32 / 4.0 - 250.0
    };
    let mut some = 0;
    let mut none = 0;
    for _ in 0..2000 {
        let rect = Rect::from_two_pos(pos2(next(), next()), pos2(next(), next()));
        let src = pos2(next(), next());
        let dst = pos2(next(), next());
        let found = intersect_rect_with_pos(rect, src, dst);
        assert_eq!(found, direct(rect, src, dst));
        if found.is_some() {
            some += 1;
        } else {
            none += 1;
        }
    }
    assert!(some > 100 && none > 100);
}

#[test]
fn offsets_compare_coordinate_by_coordinate() {
    let c = compare(vec2(1.0, 5.0), vec2(2.0, 5.0));
    assert_eq!(c, Compared { x: Comparison::Less, y: Comparison::Equal });
    assert!(!c.is_same());
    let c = compare(vec2(3.0, f32::NAN), vec2(2.0, 5.0));
    assert_eq!(c, Compared { x: Comparison::Greater, y: Comparison::Unordered });
    assert!(compare(vec2(0.0, -0.0), vec2(-0.0, 0.0)).is_same());
    assert!(!compare(vec2(f32::NAN, 0.0), vec2(f32::NAN, 0.0)).is_same());
}

#[test]
fn comparison_helpers() {
    assert!(Comparison::Greater.is_at_least() && Comparison::Equal.is_at_least());
    assert!(!Comparison::Less.is_at_least() && !Comparison::Unordered.is_at_least());
    assert!(Comparison::Less.is_at_most() && Comparison::Equal.is_at_most());
    assert!(!Comparison::Greater.is_at_most() && !Comparison::Unordered.is_at_most());
}

#[test]
fn an_edge_is_laid_between_the_rectangles_of_its_nodes() {
    let mut graph = Graph::default();
    let mut canvas = CanvasState::default();
    let mut cache = RenderInfoCache::new();
    let a = graph.add_node(node_at(1, 0.0, 0.0));
    let b = graph.add_node(node_at(2, 100.0, 0.0));
    cache.record(a, square_around(0.0, 0.0));
    cache.record(b, square_around(100.0, 0.0));
    let e = graph.add_edge(edge_between(&graph, &mut canvas, a, b));
    let widget = EdgeWidget { edge_index: e };
    widget.update_bezier_edge(&mut graph, &cache);
    widget.update_line_edge(&mut graph, &cache);
    let edge = graph.get_edge(e).unwrap();
    assert_eq!(edge.line_edge.source.canvas_pos, pos2(20.0, 0.0));
    assert_eq!(edge.line_edge.target.canvas_pos, pos2(80.0, 0.0));
    assert_eq!(edge.bezier_edge.source_anchor.canvas_pos, pos2(20.0, 0.0));
    assert_eq!(edge.bezier_edge.source_anchor.handle_out_canvas_pos, pos2(70.0, 0.0));
    assert_eq!(edge.bezier_edge.target_anchor.canvas_pos, pos2(80.0, 0.0));
    assert_eq!(edge.bezier_edge.target_anchor.handle_in_canvas_pos, pos2(30.0, 0.0));
}

#[test]
fn a_second_edge_between_two_nodes_pushes_both_across_the_line() {
    let mut graph = Graph::default();
    let mut canvas = CanvasState::default();
    let mut cache = RenderInfoCache::new();
    let a = graph.add_node(node_at(1, 0.0, 0.0));
    let b = graph.add_node(node_at(2, 100.0, 0.0));
    cache.record(a, square_around(0.0, 0.0));
    cache.record(b, square_around(100.0, 0.0));
    let first = graph.add_edge(edge_between(&graph, &mut canvas, a, b));
    EdgeWidget { edge_index: first }.update_line_edge(&mut graph, &cache);
    assert_eq!(graph.get_edge(first).unwrap().line_edge.source.canvas_pos, pos2(20.0, 0.0));
    let second = graph.add_edge(edge_between(&graph, &mut canvas, a, b));
    assert_eq!(graph.edge_count_undirected(a, b), 2);
    for (e, y) in [(first, -10.0), (second, 10.0)] {
        let widget = EdgeWidget { edge_index: e };
        widget.update_line_edge(&mut graph, &cache);
        widget.update_bezier_edge(&mut graph, &cache);
        let edge = graph.get_edge(e).unwrap();
        assert_eq!(edge.line_edge.source.canvas_pos, pos2(20.0, y));
        assert_eq!(edge.line_edge.target.canvas_pos, pos2(80.0, y));
        assert_eq!(edge.bezier_edge.source_anchor.canvas_pos, pos2(20.0, y));
        assert_eq!(edge.bezier_edge.target_anchor.canvas_pos, pos2(80.0, y));
        let pushed = edge.line_edge.source.canvas_pos - pos2(20.0, 0.0);
        assert_eq!(pushed.x, 0.0);
        assert_ne!(pushed.y, 0.0);
        assert_eq!(edge.line_edge.target.canvas_pos - pos2(80.0, 0.0), pushed);
    }
    let one = graph.get_edge(first).unwrap().line_edge.clone();
    let other = graph.get_edge(second).unwrap().line_edge.clone();
    assert_ne!(one.source.canvas_pos, other.source.canvas_pos);
    assert_ne!(one.target.canvas_pos, other.target.canvas_pos);
}

#[test]
fn three_edges_between_two_nodes_fan_out_evenly() {
    let mut graph = Graph::default();
    let mut canvas = CanvasState::default();
    let mut cache = RenderInfoCache::new();
    let a = graph.add_node(node_at(1, 0.0, 0.0));
    let b = graph.add_node(node_at(2, 100.0, 0.0));
    let c = graph.add_node(node_at(3, 0.0, 100.0));
    cache.record(a, square_around(0.0, 0.0));
    cache.record(b, square_around(100.0, 0.0));
    cache.record(c, square_around(0.0, 100.0));
    let first = graph.add_edge(edge_between(&graph, &mut canvas, a, b));
    let elsewhere = graph.add_edge(edge_between(&graph, &mut canvas, a, c));
    let second = graph.add_edge(edge_between(&graph, &mut canvas, b, a));
    let third = graph.add_edge(edge_between(&graph, &mut canvas, a, b));
    assert_eq!(graph.edge_count_undirected(a, b), 3);
    assert_eq!(graph.edge_rank_undirected(a, b, first), 0);
    assert_eq!(graph.edge_rank_undirected(b, a, second), 1);
    assert_eq!(graph.edge_rank_undirected(a, b, third), 2);
    assert_eq!(graph.edge_rank_undirected(a, c, elsewhere), 0);
    let route = |e: u32| EdgeWidget { edge_index: e }.route_ends(&graph, &cache).unwrap();
    assert_eq!(route(first).source_center, pos2(0.0, -20.0));
    assert_eq!(route(first).target_center, pos2(100.0, -20.0));
    assert_eq!(route(second).source_center, pos2(100.0, 0.0));
    assert_eq!(route(second).target_center, pos2(0.0, 0.0));
    assert_eq!(route(third).source_center, pos2(0.0, 20.0));
    assert_eq!(route(third).target_center, pos2(100.0, 20.0));
    assert_eq!(route(elsewhere).source_center, pos2(0.0, 0.0));
    assert_eq!(route(elsewhere).target_center, pos2(0.0, 100.0));
}

#[test]
fn laying_an_edge_waits_for_its_nodes_to_be_drawn() {
    let mut graph = Graph::default();
    let mut canvas = CanvasState::default();
    let mut cache = RenderInfoCache::new();
    let a = graph.add_node(node_at(1, 0.0, 0.0));
    let b = graph.add_node(node_at(2, 100.0, 0.0));
    cache.record(a, square_around(0.0, 0.0));
    let e = graph.add_edge(edge_between(&graph, &mut canvas, a, b));
    let widget = EdgeWidget { edge_index: e };
    widget.update_line_edge(&mut graph, &cache);
    widget.update_bezier_edge(&mut graph, &cache);
    let edge = graph.get_edge(e).unwrap();
    assert_eq!(edge.line_edge.source.canvas_pos, pos2(0.0, 0.0));
    assert_eq!(edge.bezier_edge.target_anchor.canvas_pos, pos2(100.0, 0.0));
    EdgeWidget { edge_index: e + 1 }.update_line_edge(&mut graph, &cache);
    assert_eq!(graph.edge_count(), 1);
}

#[test]
fn an_edge_between_nodes_at_one_place_is_left_as_it_is() {
    let mut graph = Graph::default();
    let mut canvas = CanvasState::default();
    let mut cache = RenderInfoCache::new();
    let a = graph.add_node(node_at(1, 5.0, 5.0));
    let b = graph.add_node(node_at(2, 5.0, 5.0));
    cache.record(a, square_around(5.0, 5.0));
    cache.record(b, square_around(5.0, 5.0));
    let e = graph.add_edge(edge_between(&graph, &mut canvas, a, b));
    EdgeWidget { edge_index: e }.update_line_edge(&mut graph, &cache);
    let edge = graph.get_edge(e).unwrap();
    assert_eq!(edge.line_edge.source.canvas_pos, pos2(5.0, 5.0));
    assert_eq!(edge.line_edge.target.canvas_pos, pos2(5.0, 5.0));
}

fn edge_between(graph: &Graph, canvas: &mut CanvasState, a: u32, b: u32) -> Edge {
    let from = graph.get_node(a).unwrap().position;
    let to = graph.get_node(b).unwrap().position;
    Edge::new(a, b, from, to, canvas)
}

#[test]
fn constants_of_routing() {
    assert_eq!(PARALLEL_EDGE_OFFSET, 10);
    assert_eq!(ROUTED_HANDLE_REACH, 50);
}

#[test]
fn widget_screen_pos_counts_from_the_corner() {
    let rect = Rect::from_min_max(pos2(10.0, 20.0), pos2(110.0, 220.0));
    assert_eq!(widget_screen_pos(pos2(15.0, 50.0), rect), pos2(5.0, 30.0));
    assert_eq!(widget_screen_pos(pos2(10.0, 20.0), rect), pos2(0.0, 0.0));
}

#[test]
fn offset_direction_is_across_the_line() {
    assert_eq!(edge_offset_direction(pos2(0.0, 0.0), pos2(100.0, 0.0)), vec2(0.0, -1.0));
    assert_eq!(edge_offset_direction(pos2(100.0, 0.0), pos2(0.0, 0.0)), vec2(0.0, 1.0));
    assert_eq!(edge_offset_direction(pos2(0.0, 0.0), pos2(0.0, 5.0)), vec2(1.0, 0.0));
    let across = edge_offset_direction(pos2(1.0, 1.0), pos2(4.0, 5.0));
    assert!((across.x - 0.8).abs() < 1e-6);
    assert!((across.y + 0.6).abs() < 1e-6);
}

#[test]
fn offset_direction_of_one_point_has_no_length() {
    let across = edge_offset_direction(pos2(3.0, 3.0), pos2(3.0, 3.0));
    assert_eq!(across.length(), 0.0);
    assert!(!across.any_nan());
}

#[test]
fn first_crossing_prefers_the_nearer_and_the_upright_side_on_a_tie() {
    let u = pos2(1.0, 0.0);
    let l = pos2(0.0, 1.0);
    assert_eq!(first_crossing(Some(u), Some(l), false), Some(u));
    assert_eq!(first_crossing(Some(u), Some(l), true), Some(l));
    assert_eq!(first_crossing(Some(u), None, true), Some(u));
    assert_eq!(first_crossing(None, Some(l), false), Some(l));
    assert_eq!(first_crossing(None, None, true), None);
}

#[test]
fn crossing_side_goes_right_left_bottom_top() {
    assert_eq!(crossing_side(true, true, true, true), IntersectDirection::Right);
    assert_eq!(crossing_side(false, true, true, true), IntersectDirection::Left);
    assert_eq!(crossing_side(false, false, true, true), IntersectDirection::Bottom);
    assert_eq!(crossing_side(false, false, false, true), IntersectDirection::Top);
    assert_eq!(crossing_side(false, false, false, false), IntersectDirection::Left);
}

#[test]
fn a_lone_edge_runs_from_centre_to_centre() {
    let mut graph = Graph::default();
    let mut canvas = CanvasState::default();
    let mut cache = RenderInfoCache::new();
    let a = graph.add_node(node_at(1, 0.0, 0.0));
    let b = graph.add_node(node_at(2, 100.0, 0.0));
    cache.record(a, square_around(0.0, 0.0));
    cache.record(b, square_around(100.0, 0.0));
    let e = graph.add_edge(edge_between(&graph, &mut canvas, a, b));
    let ends = EdgeWidget { edge_index: e }.route_ends(&graph, &cache).unwrap();
    assert_eq!(ends.source_center, pos2(0.0, 0.0));
    assert_eq!(ends.target_center, pos2(100.0, 0.0));
    assert_eq!(ends.source_rect, square_around(0.0, 0.0).canvas_rect);
    assert_eq!(ends.target_rect, square_around(100.0, 0.0).canvas_rect);
}

#[test]
fn parallel_edges_are_pushed_across_the_line() {
    let mut graph = Graph::default();
    let mut canvas = CanvasState::default();
    let mut cache = RenderInfoCache::new();
    let a = graph.add_node(node_at(1, 0.0, 0.0));
    let b = graph.add_node(node_at(2, 100.0, 0.0));
    cache.record(a, square_around(0.0, 0.0));
    cache.record(b, square_around(100.0, 0.0));
    let first = graph.add_edge(edge_between(&graph, &mut canvas, a, b));
    let second = graph.add_edge(edge_between(&graph, &mut canvas, a, b));
    assert_eq!(graph.edge_count_undirected(a, b), 2);
    for (e, y) in [(first, -10.0), (second, 10.0)] {
        let ends = EdgeWidget { edge_index: e }.route_ends(&graph, &cache).unwrap();
        assert_eq!(ends.source_center, pos2(0.0, y));
        assert_eq!(ends.target_center, pos2(100.0, y));
        let along = pos2(100.0, 0.0) - pos2(0.0, 0.0);
        let push = ends.source_center - pos2(0.0, 0.0);
        assert_eq!(push.dot(along), 0.0);
        assert_eq!(push.length(), 10.0);
        assert_eq!(ends.target_center - pos2(100.0, 0.0), push);
    }
}

#[test]
fn edges_that_run_against_each_other_come_apart() {
    let mut graph = Graph::default();
    let mut canvas = CanvasState::default();
    let mut cache = RenderInfoCache::new();
    let a = graph.add_node(node_at(1, 0.0, 0.0));
    let b = graph.add_node(node_at(2, 100.0, 0.0));
    cache.record(a, square_around(0.0, 0.0));
    cache.record(b, square_around(100.0, 0.0));
    let there = graph.add_edge(edge_between(&graph, &mut canvas, a, b));
    let back = graph.add_edge(edge_between(&graph, &mut canvas, b, a));
    let ends_there = EdgeWidget { edge_index: there }.route_ends(&graph, &cache).unwrap();
    let ends_back = EdgeWidget { edge_index: back }.route_ends(&graph, &cache).unwrap();
    assert_eq!(ends_there.source_center, pos2(0.0, -10.0));
    assert_eq!(ends_there.target_center, pos2(100.0, -10.0));
    assert_eq!(ends_back.source_center, pos2(100.0, 10.0));
    assert_eq!(ends_back.target_center, pos2(0.0, 10.0));
}

#[test]
fn route_ends_across_pushes_in_the_direction_given() {
    let mut graph = Graph::default();
    let mut canvas = CanvasState::default();
    let mut cache = RenderInfoCache::new();
    let a = graph.add_node(node_at(1, 0.0, 0.0));
    let b = graph.add_node(node_at(2, 100.0, 0.0));
    cache.record(a, square_around(0.0, 0.0));
    cache.record(b, square_around(100.0, 0.0));
    let first = graph.add_edge(edge_between(&graph, &mut canvas, a, b));
    let widget = EdgeWidget { edge_index: first };
    let alone = widget.route_ends_across(&graph, &cache, vec2(0.5, 2.0)).unwrap();
    assert_eq!(alone.source_center, pos2(0.0, 0.0));
    assert_eq!(alone.target_center, pos2(100.0, 0.0));
    graph.add_edge(edge_between(&graph, &mut canvas, b, a));
    let pushed = widget.route_ends_across(&graph, &cache, vec2(0.5, 2.0)).unwrap();
    assert_eq!(pushed.source_center, pos2(5.0, 20.0));
    assert_eq!(pushed.target_center, pos2(105.0, 20.0));
    assert_eq!(pushed.source_rect, square_around(0.0, 0.0).canvas_rect);
    assert!(EdgeWidget { edge_index: 9 }.route_ends_across(&graph, &cache, vec2(1.0, 0.0)).is_none());
    cache.clear();
    assert!(widget.route_ends_across(&graph, &cache, vec2(1.0, 0.0)).is_none());
}

#[test]
fn routing_waits_for_nodes_that_were_not_drawn() {
    let mut graph = Graph::default();
    let mut canvas = CanvasState::default();
    let mut cache = RenderInfoCache::new();
    let a = graph.add_node(node_at(1, 0.0, 0.0));
    let b = graph.add_node(node_at(2, 100.0, 0.0));
    let e = graph.add_edge(edge_between(&graph, &mut canvas, a, b));
    let widget = EdgeWidget { edge_index: e };
    assert!(widget.route_ends(&graph, &cache).is_none());
    cache.record(a, square_around(0.0, 0.0));
    assert!(widget.route_ends(&graph, &cache).is_none());
    cache.record(b, square_around(100.0, 0.0));
    assert!(widget.route_ends(&graph, &cache).is_some());
    assert!(EdgeWidget { edge_index: e + 1 }.route_ends(&graph, &cache).is_none());
}

#[test]
fn routed_curve_has_handles_straight_out_of_the_sides() {
    let mut graph = Graph::default();
    let mut canvas = CanvasState::default();
    let a = graph.add_node(node_at(1, 0.0, 0.0));
    let b = graph.add_node(node_at(2, 100.0, 100.0));
    let e = graph.add_edge(edge_between(&graph, &mut canvas, a, b));
    let kept = BezierEdge::new(
        BezierAnchor::new_smooth(pos2(0.0, 0.0)),
        BezierAnchor::new_smooth(pos2(0.0, 0.0)),
    )
    .with_control_anchors(vec![BezierAnchor::new_sharp(pos2(50.0, 50.0))]);
    graph.update_bezier_edge(e, kept);
    let widget = EdgeWidget { edge_index: e };
    widget.place_bezier_edge(
        &mut graph,
        Some((pos2(20.0, 5.0), IntersectDirection::Right)),
        Some((pos2(90.0, 90.0), IntersectDirection::Top)),
    );
    let edge = graph.get_edge(e).unwrap();
    let source = edge.bezier_edge.source_anchor;
    let target = edge.bezier_edge.target_anchor;
    assert_eq!(source.canvas_pos, pos2(20.0, 5.0));
    assert_eq!(source.handle_out_canvas_pos, pos2(70.0, 5.0));
    assert_eq!(source.handle_in_canvas_pos, pos2(-30.0, 5.0));
    assert!(source.is_smooth);
    assert_eq!(target.canvas_pos, pos2(90.0, 90.0));
    assert_eq!(target.handle_in_canvas_pos, pos2(90.0, 40.0));
    assert_eq!(target.handle_out_canvas_pos, pos2(90.0, 140.0));
    assert!(target.is_smooth);
    assert_eq!(source.handle_out_canvas_pos - source.canvas_pos, -(source.handle_in_canvas_pos - source.canvas_pos));
    assert_eq!(target.handle_out_canvas_pos - target.canvas_pos, -(target.handle_in_canvas_pos - target.canvas_pos));
    assert_eq!(edge.bezier_edge.control_anchors.len(), 1);
    assert_eq!(edge.bezier_edge.control_anchors[0].canvas_pos, pos2(50.0, 50.0));
    assert_eq!(edge.line_edge.source.canvas_pos, pos2(0.0, 0.0));

    widget.place_bezier_edge(
        &mut graph,
        Some((pos2(-20.0, 5.0), IntersectDirection::Left)),
        Some((pos2(90.0, 110.0), IntersectDirection::Bottom)),
    );
    let edge = graph.get_edge(e).unwrap();
    assert_eq!(edge.bezier_edge.source_anchor.handle_out_canvas_pos, pos2(-70.0, 5.0));
    assert_eq!(edge.bezier_edge.source_anchor.handle_in_canvas_pos, pos2(30.0, 5.0));
    assert_eq!(edge.bezier_edge.target_anchor.handle_in_canvas_pos, pos2(90.0, 160.0));
    assert_eq!(edge.bezier_edge.target_anchor.handle_out_canvas_pos, pos2(90.0, 60.0));
}

#[test]
fn routing_without_a_crossing_changes_nothing() {
    let mut graph = Graph::default();
    let mut canvas = CanvasState::default();
    let a = graph.add_node(node_at(1, 0.0, 0.0));
    let b = graph.add_node(node_at(2, 100.0, 100.0));
    let e = graph.add_edge(edge_between(&graph, &mut canvas, a, b));
    let widget = EdgeWidget { edge_index: e };
    widget.place_bezier_edge(&mut graph, None, Some((pos2(9.0, 9.0), IntersectDirection::Top)));
    widget.place_bezier_edge(&mut graph, Some((pos2(9.0, 9.0), IntersectDirection::Top)), None);
    widget.place_line_edge(&mut graph, None, Some((pos2(9.0, 9.0), IntersectDirection::Top)));
    widget.place_line_edge(&mut graph, Some((pos2(9.0, 9.0), IntersectDirection::Top)), None);
    let edge = graph.get_edge(e).unwrap();
    assert_eq!(edge.bezier_edge.source_anchor.canvas_pos, pos2(0.0, 0.0));
    assert_eq!(edge.bezier_edge.target_anchor.canvas_pos, pos2(100.0, 100.0));
    assert_eq!(edge.line_edge.source.canvas_pos, pos2(0.0, 0.0));
    assert_eq!(edge.line_edge.target.canvas_pos, pos2(100.0, 100.0));
    let gone = EdgeWidget { edge_index: e + 5 };
    gone.place_line_edge(
        &mut graph,
        Some((pos2(1.0, 1.0), IntersectDirection::Left)),
        Some((pos2(2.0, 2.0), IntersectDirection::Left)),
    );
    gone.place_bezier_edge(
        &mut graph,
        Some((pos2(1.0, 1.0), IntersectDirection::Left)),
        Some((pos2(2.0, 2.0), IntersectDirection::Left)),
    );
    assert_eq!(graph.edge_count(), 1);
}

#[test]
fn routed_line_runs_between_the_crossings() {
    let mut graph = Graph::default();
    let mut canvas = CanvasState::default();
    let a = graph.add_node(node_at(1, 0.0, 0.0));
    let b = graph.add_node(node_at(2, 100.0, 0.0));
    let e = graph.add_edge(edge_between(&graph, &mut canvas, a, b));
    EdgeWidget { edge_index: e }.place_line_edge(
        &mut graph,
        Some((pos2(20.0, 0.0), IntersectDirection::Right)),
        Some((pos2(80.0, 0.0), IntersectDirection::Left)),
    );
    let edge = graph.get_edge(e).unwrap();
    assert_eq!(edge.line_edge.source.canvas_pos, pos2(20.0, 0.0));
    assert_eq!(edge.line_edge.target.canvas_pos, pos2(80.0, 0.0));
    assert_eq!(edge.bezier_edge.source_anchor.canvas_pos, pos2(0.0, 0.0));
}

#[test]
fn routed_ends_are_smooth_and_mirrored() {
    let mut graph = Graph::default();
    let mut canvas = CanvasState::default();
    let a = graph.add_node(node_at(1, 0.0, 0.0));
    let b = graph.add_node(node_at(2, 100.0, 60.0));
    let e = graph.add_edge(edge_between(&graph, &mut canvas, a, b));
    let widget = EdgeWidget { edge_index: e };
    widget.place_bezier_edge(
        &mut graph,
        Some((pos2(20.0, 7.5), IntersectDirection::Right)),
        Some((pos2(90.0, 50.0), IntersectDirection::Top)),
    );
    let curve = graph.get_edge(e).unwrap().bezier_edge.clone();
    let source = curve.source_anchor;
    let target = curve.target_anchor;
    assert!(source.is_smooth && target.is_smooth);
    assert_eq!(source.canvas_pos, pos2(20.0, 7.5));
    assert_eq!(source.handle_out_canvas_pos, pos2(70.0, 7.5));
    assert_eq!(source.handle_in_canvas_pos, pos2(-30.0, 7.5));
    assert_eq!(target.canvas_pos, pos2(90.0, 50.0));
    assert_eq!(target.handle_in_canvas_pos, pos2(90.0, 0.0));
    assert_eq!(target.handle_out_canvas_pos, pos2(90.0, 100.0));
    for anchor in [source, target] {
        assert_eq!(
            anchor.handle_out_canvas_pos - anchor.canvas_pos,
            -(anchor.handle_in_canvas_pos - anchor.canvas_pos)
        );
    }
}

#[test]
fn a_crossing_lies_on_the_side_it_is_reported_on() {
    let rect = Rect::from_min_max(pos2(-3.0, -2.0), pos2(5.0, 7.0));
    let c = rect.center();
    let mut seen = 0;
    for i in 0..40 {
        for j in 0..40 {
            let p = pos2(-20.0 + i as f32 * 1.03, -20.0 + j as f32 * 0.97);
            let Some((q, side)) = intersect_rect_simple(rect, p) else {
                assert_eq!(p, c);
                continue;
            };
            seen += 1;
            match side {
                IntersectDirection::Left => assert_eq!(q.x, rect.min.x),
                IntersectDirection::Right => assert_eq!(q.x, rect.max.x),
                IntersectDirection::Top => assert_eq!(q.y, rect.min.y),
                IntersectDirection::Bottom => assert_eq!(q.y, rect.max.y),
            }
            assert!(rect.contains(q));
        }
    }
    assert!(seen >= 1599);
}

#[test]
fn a_ray_from_inside_leaves_even_where_the_arithmetic_overflows() {
    let all = Rect::from_min_max(pos2(-f32::MAX, -f32::MAX), pos2(f32::MAX, f32::MAX));
    let found = intersect_rect_with_pos(all, pos2(-f32::MAX, 0.0), pos2(f32::MAX, 0.0));
    let (q, side) = found.unwrap();
    assert_eq!(side, IntersectDirection::Right);
    assert_eq!(q.x, f32::MAX);
    assert!(all.contains(q));
    let up = intersect_rect_with_pos(all, pos2(0.0, f32::MAX), pos2(0.0, -f32::MAX)).unwrap();
    assert_eq!(up.0, pos2(-f32::MAX, -f32::MAX));
    assert_eq!(up.1, IntersectDirection::Left);
    assert!(all.contains(up.0));
    let small = Rect::from_min_max(pos2(0.0, 0.0), pos2(1.0, 1.0));
    assert_eq!(intersect_rect_with_pos(small, pos2(2.0, f32::MAX), pos2(2.0, -f32::MAX)), None);
}

#[test]
fn every_ray_from_inside_a_rectangle_leaves_it_on_the_border() {
    let rect = Rect::from_min_max(pos2(-3.0, -2.0), pos2(5.0, 7.0));
    let mut state: u32 = 12345;
    let mut next = move || {
        state = state.wrapping_mul(1664525).wrapping_add(1013904223);
        (state >> 8) as f32 / 16777216.0
    };
    for _ in 0..2000 {
        let src = pos2(-3.0 + 8.0 * next(), -2.0 + 9.0 * next());
        let dst = pos2(-30.0 + 60.0 * next(), -30.0 + 60.0 * next());
        assert!(rect.contains(src));
        if src == dst {
            continue;
        }
        let (q, side) = intersect_rect_with_pos(rect, src, dst).unwrap();
        assert!(rect.contains(q));
        match side {
            IntersectDirection::Left => assert_eq!(q.x, rect.min.x),
            IntersectDirection::Right => assert_eq!(q.x, rect.max.x),
            IntersectDirection::Top => assert_eq!(q.y, rect.min.y),
            IntersectDirection::Bottom => assert_eq!(q.y, rect.max.y),
        }
        let along = (dst - src).normalized();
        let to_crossing = q - src;
        assert!((to_crossing.x * along.y - to_crossing.y * along.x).abs() < 1e-3);
        assert!(to_crossing.dot(along) >= -1e-4);
    }
}
