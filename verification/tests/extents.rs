use diagram_core::canvas::CanvasState;
use diagram_core::curve::bounding_of_points;
use diagram_core::extent::{keep_between, keep_in, rect_extend, rect_from_corners};
use egui::emath::TSTransform;
use egui::{pos2, vec2, Rect, Vec2};

#[test]
fn keep_between_returns_the_bound_or_the_scale() {
    let least = Vec2::splat(0.01);
    let greatest = Vec2::splat(1000.0);
    assert_eq!(keep_between(Vec2::splat(2.0), least, greatest), Vec2::splat(2.0));
    assert_eq!(keep_between(Vec2::splat(0.001), least, greatest), least);
    assert_eq!(keep_between(Vec2::splat(-5.0), least, greatest), least);
    assert_eq!(keep_between(Vec2::splat(5000.0), least, greatest), greatest);
    assert_eq!(keep_between(Vec2::splat(f32::INFINITY), least, greatest), greatest);
    assert_eq!(keep_between(least, least, greatest), least);
    assert_eq!(keep_between(greatest, least, greatest), greatest);
    assert_eq!(keep_between(Vec2::splat(f32::NAN), least, greatest), least);
}

#[test]
fn zoom_keeps_the_scale_between_its_bounds() {
    let mut canvas = CanvasState::default();
    canvas.zoom(pos2(0.0, 0.0), TSTransform::from_scaling(1.0e9));
    assert_eq!(canvas.transform.scaling, 1000.0);
    canvas.zoom(pos2(0.0, 0.0), TSTransform::from_scaling(1.0e-9));
    assert_eq!(canvas.transform.scaling, 0.01);
    canvas.zoom(pos2(0.0, 0.0), TSTransform::from_scaling(50.0));
    assert_eq!(canvas.transform.scaling, 0.5);
}

#[test]
fn rect_from_corners_takes_the_corners_either_way_round() {
    let wanted = Rect::from_min_max(pos2(-3.0, 2.0), pos2(5.0, 9.0));
    assert_eq!(rect_from_corners(pos2(-3.0, 2.0), pos2(5.0, 9.0)), wanted);
    assert_eq!(rect_from_corners(pos2(5.0, 9.0), pos2(-3.0, 2.0)), wanted);
    assert_eq!(rect_from_corners(pos2(-3.0, 9.0), pos2(5.0, 2.0)), wanted);
    assert_eq!(rect_from_corners(pos2(5.0, 2.0), pos2(-3.0, 9.0)), wanted);
    let point = pos2(4.0, 4.0);
    assert_eq!(rect_from_corners(point, point), Rect::from_min_max(point, point));
    assert_eq!(rect_from_corners(pos2(1.0, 1.0), pos2(2.0, 3.0)), Rect::from_two_pos(pos2(1.0, 1.0), pos2(2.0, 3.0)));
}

#[test]
fn rect_extend_grows_only_as_far_as_needed() {
    let rect = Rect::from_min_max(pos2(0.0, 0.0), pos2(10.0, 10.0));
    assert_eq!(rect_extend(rect, pos2(5.0, 5.0)), rect);
    assert_eq!(rect_extend(rect, pos2(0.0, 10.0)), rect);
    assert_eq!(rect_extend(rect, pos2(12.0, 5.0)), Rect::from_min_max(pos2(0.0, 0.0), pos2(12.0, 10.0)));
    assert_eq!(rect_extend(rect, pos2(-1.0, 11.0)), Rect::from_min_max(pos2(-1.0, 0.0), pos2(10.0, 11.0)));
    assert_eq!(rect_extend(rect, pos2(-2.0, -3.0)), Rect::from_min_max(pos2(-2.0, -3.0), pos2(10.0, 10.0)));
    let mut grown = rect;
    grown.extend_with(pos2(20.0, -7.0));
    assert_eq!(rect_extend(rect, pos2(20.0, -7.0)), grown);
}

#[test]
fn bounds_hold_every_point() {
    let points = vec![pos2(3.0, 4.0), pos2(-1.0, 8.0), pos2(7.0, -2.0), pos2(0.0, 0.0), pos2(7.0, 8.0)];
    let rect = bounding_of_points(&points);
    assert_eq!(rect, Rect::from_min_max(pos2(-1.0, -2.0), pos2(7.0, 8.0)));
    for p in &points {
        assert!(rect.contains(*p));
    }
    assert_eq!(bounding_of_points(&vec![pos2(1.0, 2.0)]), Rect::from_min_max(pos2(1.0, 2.0), pos2(1.0, 2.0)));
    assert_eq!(vec2(rect.width(), rect.height()), vec2(8.0, 10.0));
}

#[test]
fn keep_in_brings_a_position_into_the_rectangle() {
    let rect = Rect::from_min_max(pos2(0.0, -5.0), pos2(10.0, 5.0));
    assert_eq!(keep_in(&rect, pos2(3.0, 4.0)), pos2(3.0, 4.0));
    assert_eq!(keep_in(&rect, pos2(0.0, 5.0)), pos2(0.0, 5.0));
    assert_eq!(keep_in(&rect, pos2(-1.0, 4.0)), pos2(0.0, 4.0));
    assert_eq!(keep_in(&rect, pos2(11.0, -9.0)), pos2(10.0, -5.0));
    assert_eq!(keep_in(&rect, pos2(3.0, 5.000001)), pos2(3.0, 5.0));
    assert_eq!(keep_in(&rect, pos2(f32::NAN, 1.0)), pos2(0.0, 1.0));
    assert_eq!(keep_in(&rect, pos2(f32::INFINITY, f32::NEG_INFINITY)), pos2(10.0, -5.0));
    assert_eq!(keep_in(&rect, pos2(3.0, 4.0)), rect.clamp(pos2(3.0, 4.0)));
    assert_eq!(keep_in(&rect, pos2(30.0, -40.0)), rect.clamp(pos2(30.0, -40.0)));
}
