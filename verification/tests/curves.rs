use diagram_core::bezier::BezierWidget;
use diagram_core::curve::{bounding_of_points, cubic_bezier};
use diagram_core::graph::anchor::BezierAnchor;
use diagram_core::graph::edge::BezierEdge;
use egui::{pos2, Pos2, Rect};

/// The polynomial, worked out on the coordinates directly.
fn direct(start: Pos2, out: Pos2, inward: Pos2, end: Pos2, t: f32) -> Pos2 {
    let t2 = t * t;
    let t3 = t2 * t;
    let u = 1.0 - t;
    let u2 = u * u;
    let u3 = u2 * u;
    pos2(
        u3 * start.x + 3.0 * u2 * t * out.x + 3.0 * u * t2 * inward.x + t3 * end.x,
        u3 * start.y + 3.0 * u2 * t * out.y + 3.0 * u * t2 * inward.y + t3 * end.y,
    )
}

#[test]
fn cubic_bezier_takes_every_sample_count() {
    let (start, out, inward, end) = (pos2(0.0, 0.0), pos2(0.0, 8.0), pos2(8.0, 8.0), pos2(8.0, 0.0));
    assert_eq!(cubic_bezier(start, out, inward, end, 0, 65535), start);
    assert_eq!(cubic_bezier(start, out, inward, end, 65535, 65535), end);
    assert_eq!(cubic_bezier(start, out, inward, end, 20000, 40000), pos2(4.0, 6.0));
    assert_eq!(
        cubic_bezier(start, out, inward, end, 40000, 50000),
        direct(start, out, inward, end, 40000.0 / 50000.0)
    );
}

#[test]
fn path_points_with_more_samples_than_a_short_count_holds() {
    let edge = BezierEdge::new(
        BezierAnchor::new_smooth(pos2(0.0, 0.0)),
        BezierAnchor::new_smooth(pos2(100.0, 0.0)),
    );
    let points = edge.path_points(40000);
    assert_eq!(points.len(), 40001);
    assert_eq!(points[0], pos2(0.0, 0.0));
    assert_eq!(points[40000], pos2(100.0, 0.0));
    let all = edge.path_points(65535);
    assert_eq!(all.len(), 65536);
}

#[test]
fn cubic_bezier_starts_and_ends_at_the_anchors() {
    let (start, out, inward, end) = (pos2(0.0, 0.0), pos2(10.0, 20.0), pos2(30.0, -5.0), pos2(40.0, 8.0));
    assert_eq!(cubic_bezier(start, out, inward, end, 0, 100), start);
    assert_eq!(cubic_bezier(start, out, inward, end, 100, 100), end);
}

#[test]
fn cubic_bezier_at_the_middle() {
    let (start, out, inward, end) = (pos2(0.0, 0.0), pos2(0.0, 8.0), pos2(8.0, 8.0), pos2(8.0, 0.0));
    assert_eq!(cubic_bezier(start, out, inward, end, 1, 2), pos2(4.0, 6.0));
    assert_eq!(cubic_bezier(start, out, inward, end, 50, 100), pos2(4.0, 6.0));
    assert_eq!(cubic_bezier(start, out, inward, end, 1, 4), pos2(1.25, 4.5));
}

#[test]
fn cubic_bezier_equals_the_polynomial_on_the_coordinates() {
    let (start, out, inward, end) = (pos2(1.5, -2.0), pos2(31.5, -2.0), pos2(70.25, 44.0), pos2(100.0, 41.0));
    for samples in [1u16, 3, 7, 100] {
        for step in 0..=samples {
            let t = step as f32 / samples as f32;
            assert_eq!(cubic_bezier(start, out, inward, end, step, samples), direct(start, out, inward, end, t));
        }
    }
}

#[test]
fn path_points_run_segment_after_segment() {
    let edge = BezierEdge::new(
        BezierAnchor::new_smooth(pos2(0.0, 0.0)),
        BezierAnchor::new_smooth(pos2(200.0, 0.0)),
    )
    .with_control_anchors(vec![BezierAnchor::new_smooth(pos2(100.0, 50.0))]);
    let points = edge.path_points(4);
    assert_eq!(points.len(), 10);
    assert_eq!(points[0], pos2(0.0, 0.0));
    assert_eq!(points[4], pos2(100.0, 50.0));
    assert_eq!(points[5], pos2(100.0, 50.0));
    assert_eq!(points[9], pos2(200.0, 0.0));
    let control = edge.control_anchors[0];
    for step in 0..=4u16 {
        let t = step as f32 / 4.0;
        assert_eq!(
            points[step as usize],
            direct(
                edge.source_anchor.canvas_pos,
                edge.source_anchor.handle_out_canvas_pos,
                control.handle_in_canvas_pos,
                control.canvas_pos,
                t
            )
        );
        assert_eq!(
            points[5 + step as usize],
            direct(
                control.canvas_pos,
                control.handle_out_canvas_pos,
                edge.target_anchor.handle_in_canvas_pos,
                edge.target_anchor.canvas_pos,
                t
            )
        );
    }
}

#[test]
fn path_of_a_curve_without_control_anchors_is_one_segment() {
    let edge = BezierEdge::new(
        BezierAnchor::new_smooth(pos2(0.0, 0.0)),
        BezierAnchor::new_smooth(pos2(90.0, 0.0)),
    );
    let points = edge.path_points(2);
    assert_eq!(points, vec![pos2(0.0, 0.0), pos2(45.0, 0.0), pos2(90.0, 0.0)]);
    assert_eq!(edge.path_points(0).len(), 1);
}

#[test]
fn bounding_of_points_is_the_least_and_the_greatest() {
    let points = vec![pos2(3.0, 4.0), pos2(-1.0, 9.0), pos2(7.0, 0.5), pos2(2.0, 2.0)];
    assert_eq!(bounding_of_points(&points), Rect::from_min_max(pos2(-1.0, 0.5), pos2(7.0, 9.0)));
    assert_eq!(
        bounding_of_points(&vec![pos2(3.0, 4.0)]),
        Rect::from_min_max(pos2(3.0, 4.0), pos2(3.0, 4.0))
    );
}

#[test]
fn bounding_rect_holds_every_sample() {
    let edge = BezierEdge::new(
        BezierAnchor::new_smooth(pos2(0.0, 0.0)).with_handles(pos2(0.0, 0.0), pos2(0.0, 80.0)),
        BezierAnchor::new_smooth(pos2(80.0, 0.0)).with_handles(pos2(80.0, 80.0), pos2(0.0, 0.0)),
    );
    let widget = BezierWidget::new(edge);
    let rect = widget.bounding_rect(100);
    assert_eq!(rect.min, pos2(0.0, 0.0));
    assert_eq!(rect.max.x, 80.0);
    assert_eq!(rect.max.y, 60.0);
    let mut min_x = f32::MAX;
    let mut max_x = f32::MIN;
    let mut min_y = f32::MAX;
    let mut max_y = f32::MIN;
    for p in widget.edge.path_points(100) {
        assert!(rect.contains(p));
        min_x = min_x.min(p.x);
        max_x = max_x.max(p.x);
        min_y = min_y.min(p.y);
        max_y = max_y.max(p.y);
    }
    assert_eq!(rect, Rect::from_min_max(pos2(min_x, min_y), pos2(max_x, max_y)));
}
