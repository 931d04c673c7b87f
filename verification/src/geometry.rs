//! Where an edge meets the rectangle of a node.
//!
//! An edge leaves a node where the ray from one end of the edge towards the
//! other leaves the node's rectangle. The arithmetic on the coordinates is
//! done by `egui`, and how two coordinates compare is asked of the standard
//! library; what follows from the answers is decided here.
use vstd::prelude::*;
use egui::{Pos2, Rect, Vec2};
use crate::extent::{in_order, keep_in, kept_in};
use crate::order::{compare, compared, compared_x, Compared, Comparison};
use crate::plane::{
    normalized_from, pos_add, pos_as_vec, pos_delta, pos_diff, pos_mix, pos_mixed, pos_plus,
    pos_to_vec, rect_center, rect_contains, rect_has, rect_max, rect_max_corner, rect_middle,
    rect_min, rect_min_corner, vec2_from_ints, vec2_of, vec_all_x, vec_all_y, vec_as_pos,
    vec_div, vec_normalize, vec_over, vec_quarter_turn, vec_rot90, vec_scale, vec_splat_x,
    vec_splat_y, vec_times, vec_to_pos,
};

verus! {

/// The side of a rectangle that a ray leaves it through.
#[derive(Debug, Clone, Copy, PartialEq, Eq, Structural)]
pub enum IntersectDirection {
    Left,
    Right,
    Top,
    Bottom,
}

/// Where `window_pos` lies in a widget, counted from the top left corner of
/// the widget's rectangle.
pub fn widget_screen_pos(window_pos: Pos2, widget_rect: Rect) -> (pos: Pos2)
    ensures
        pos == vec_as_pos(pos_diff(window_pos, rect_min(widget_rect))),
{
    let vec = pos_delta(window_pos, rect_min_corner(&widget_rect));
    vec_to_pos(vec)
}

/// Whether `across` is a direction across the line from `source` to
/// `target`: the offset from `source` to `target` as `egui` brings it to
/// length one, turned by a quarter turn.
pub open spec fn is_offset_direction(source: Pos2, target: Pos2, across: Vec2) -> bool {
    exists|unit: Vec2|
        normalized_from(pos_diff(target, source), unit) && across == #[trigger] vec_rot90(unit)
}

/// The direction across the line from `source_canvas_pos` to
/// `target_canvas_pos`: the direction of the line, brought to length one,
/// turned by a quarter turn. Two positions that coincide give an offset of
/// no length.
pub fn edge_offset_direction(source_canvas_pos: Pos2, target_canvas_pos: Pos2) -> (across: Vec2)
    ensures
        is_offset_direction(source_canvas_pos, target_canvas_pos, across),
{
    let direction = vec_normalize(pos_delta(target_canvas_pos, source_canvas_pos));
    vec_quarter_turn(direction)
}

/// The corner of `rect` that a ray runs towards: in each coordinate the
/// greatest corner when the ray rises in that coordinate, else the least.
/// `sign` is how the direction of the ray compares with nothing.
pub open spec fn facing_corner(rect: Rect, sign: Compared) -> Pos2 {
    pos_mixed(
        if sign.x == Comparison::Greater {
            rect_max(rect)
        } else {
            rect_min(rect)
        },
        if sign.y == Comparison::Greater {
            rect_max(rect)
        } else {
            rect_min(rect)
        },
    )
}

/// How far along the ray from `src` towards `dst` the lines through the
/// facing corner lie, as multiples of the way from `src` to `dst`: in the
/// first coordinate for the upright line, in the second for the level one.
pub open spec fn reach(rect: Rect, src: Pos2, dst: Pos2, sign: Compared) -> Vec2 {
    vec_over(pos_diff(facing_corner(rect, sign), src), pos_diff(dst, src))
}

/// Where the ray meets the upright line through the facing corner: on that
/// line from left to right, and as far up or down as the ray has come.
pub open spec fn upright_point(rect: Rect, src: Pos2, dst: Pos2, sign: Compared) -> Pos2 {
    pos_mixed(
        facing_corner(rect, sign),
        pos_plus(src, vec_times(vec_all_x(reach(rect, src, dst, sign)), pos_diff(dst, src))),
    )
}

/// Where the ray meets the level line through the facing corner: on that
/// line from top to bottom, and as far left or right as the ray has come.
pub open spec fn level_point(rect: Rect, src: Pos2, dst: Pos2, sign: Compared) -> Pos2 {
    pos_mixed(
        pos_plus(src, vec_times(vec_all_y(reach(rect, src, dst, sign)), pos_diff(dst, src))),
        facing_corner(rect, sign),
    )
}

/// How `dst` compares with `src`, coordinate by coordinate: whether the ray
/// from `src` towards `dst` runs to the right or to the left, and down or
/// up.
pub open spec fn ray_sign(src: Pos2, dst: Pos2) -> Compared {
    compared(pos_as_vec(dst), pos_as_vec(src))
}

/// Whether the ray from `src` towards `dst` has no direction: the two
/// positions are equal in both coordinates.
pub open spec fn has_no_direction(src: Pos2, dst: Pos2) -> bool {
    ray_sign(src, dst).same()
}

/// Whether the ray from `src` towards `dst` runs to the left or to the
/// right.
pub open spec fn runs_across(src: Pos2, dst: Pos2) -> bool {
    ray_sign(src, dst).x == Comparison::Greater || ray_sign(src, dst).x == Comparison::Less
}

/// Whether the ray from `src` towards `dst` runs up or down.
pub open spec fn runs_along(src: Pos2, dst: Pos2) -> bool {
    ray_sign(src, dst).y == Comparison::Greater || ray_sign(src, dst).y == Comparison::Less
}

/// Whether the ray meets an upright side of the rectangle: it runs to the
/// left or to the right, the side it runs towards lies ahead, and the point
/// where it meets the line of that side is between top and bottom.
pub open spec fn meets_upright(rect: Rect, src: Pos2, dst: Pos2) -> bool {
    let sign = ray_sign(src, dst);
    let point = pos_as_vec(upright_point(rect, src, dst, sign));
    &&& sign.x == Comparison::Greater || sign.x == Comparison::Less
    &&& compared(reach(rect, src, dst, sign), vec2_of(0, 0)).x.at_least()
    &&& compared(point, pos_as_vec(rect_min(rect))).y.at_least()
    &&& compared(point, pos_as_vec(rect_max(rect))).y.at_most()
}

/// Whether the ray meets a level side of the rectangle, likewise.
pub open spec fn meets_level(rect: Rect, src: Pos2, dst: Pos2) -> bool {
    let sign = ray_sign(src, dst);
    let point = pos_as_vec(level_point(rect, src, dst, sign));
    &&& sign.y == Comparison::Greater || sign.y == Comparison::Less
    &&& compared(reach(rect, src, dst, sign), vec2_of(0, 0)).y.at_least()
    &&& compared(point, pos_as_vec(rect_min(rect))).x.at_least()
    &&& compared(point, pos_as_vec(rect_max(rect))).x.at_most()
}

/// Whether the level side is met strictly before the upright one.
pub open spec fn level_is_nearer(rect: Rect, src: Pos2, dst: Pos2) -> bool {
    let t = reach(rect, src, dst, ray_sign(src, dst));
    compared(vec_all_x(t), vec_all_y(t)).x == Comparison::Greater
}

/// Where a ray that starts in `rect` leaves it when rounding has kept it
/// from meeting a side: on the side that it runs towards, the upright one
/// unless the ray runs only up or down or the level one is strictly nearer,
/// at the point where it meets the line of that side, brought back between
/// the corners. A ray that runs nowhere leaves nowhere.
pub open spec fn held_exit(rect: Rect, src: Pos2, dst: Pos2) -> Option<Pos2> {
    let sign = ray_sign(src, dst);
    if runs_across(src, dst) && !(runs_along(src, dst) && level_is_nearer(rect, src, dst)) {
        Some(
            pos_mixed(
                facing_corner(rect, sign),
                kept_in(rect, upright_point(rect, src, dst, sign)),
            ),
        )
    } else if runs_along(src, dst) {
        Some(
            pos_mixed(kept_in(rect, level_point(rect, src, dst, sign)), facing_corner(rect, sign)),
        )
    } else {
        None
    }
}

/// Where the ray from `src` towards `dst` first meets a side of `rect`. A
/// ray without a direction meets nothing. Of an upright and a level side
/// that are both met, the one that comes first along the ray counts, the
/// upright one on a tie. A ray that starts in the rectangle and has a
/// direction always leaves it: where the arithmetic finds it on no side,
/// it leaves where `held_exit` says.
pub open spec fn first_exit(rect: Rect, src: Pos2, dst: Pos2) -> Option<Pos2> {
    if has_no_direction(src, dst) {
        None
    } else {
        let met = first_of(
            if meets_upright(rect, src, dst) {
                Some(upright_point(rect, src, dst, ray_sign(src, dst)))
            } else {
                None
            },
            if meets_level(rect, src, dst) {
                Some(level_point(rect, src, dst, ray_sign(src, dst)))
            } else {
                None
            },
            level_is_nearer(rect, src, dst),
        );
        if met is None && rect_has(rect, src) {
            held_exit(rect, src, dst)
        } else {
            met
        }
    }
}

/// Of two crossings, the one that counts: the level one when it is the only
/// one or the nearer one.
pub open spec fn first_of(upright: Option<Pos2>, level: Option<Pos2>, level_is_nearer: bool) -> Option<
    Pos2,
> {
    match (upright, level) {
        (Some(u), Some(l)) => if level_is_nearer {
            Some(l)
        } else {
            Some(u)
        },
        (Some(u), None) => Some(u),
        (None, Some(l)) => Some(l),
        (None, None) => None,
    }
}

/// The side that the position `pos` is reported on: the side of `rect`
/// whose line it is on, the right side before the left, the bottom and the
/// top; the left side when it is on none.
pub open spec fn side_of(rect: Rect, pos: Pos2) -> IntersectDirection {
    let at_max = compared(pos_as_vec(pos), pos_as_vec(rect_max(rect)));
    let at_min = compared(pos_as_vec(pos), pos_as_vec(rect_min(rect)));
    if at_max.x == Comparison::Equal {
        IntersectDirection::Right
    } else if at_min.x == Comparison::Equal {
        IntersectDirection::Left
    } else if at_max.y == Comparison::Equal {
        IntersectDirection::Bottom
    } else if at_min.y == Comparison::Equal {
        IntersectDirection::Top
    } else {
        IntersectDirection::Left
    }
}

/// Where the ray from `src` towards `dst` leaves `rect`, and through which
/// side.
pub open spec fn crossing_of(rect: Rect, src: Pos2, dst: Pos2) -> Option<
    (Pos2, IntersectDirection),
> {
    match first_exit(rect, src, dst) {
        Some(pos) => Some((pos, side_of(rect, pos))),
        None => None,
    }
}

/// Of the crossing with an upright side and the crossing with a level side,
/// the one that comes first along the ray; a tie goes to the upright side.
/// `level_is_nearer` says whether the crossing with the level side comes
/// strictly before the other.
pub fn first_crossing(upright: Option<Pos2>, level: Option<Pos2>, level_is_nearer: bool) -> (first:
    Option<Pos2>)
    ensures
        first == first_of(upright, level, level_is_nearer),
{
    match (upright, level) {
        (Some(u), Some(l)) => {
            if level_is_nearer {
                Some(l)
            } else {
                Some(u)
            }
        },
        (Some(u), None) => Some(u),
        (None, Some(l)) => Some(l),
        (None, None) => None,
    }
}

/// Whether a crossing lies on the line of `side`, given the lines it is on.
pub open spec fn lies_on(
    side: IntersectDirection,
    on_right: bool,
    on_left: bool,
    on_bottom: bool,
    on_top: bool,
) -> bool {
    match side {
        IntersectDirection::Right => on_right,
        IntersectDirection::Left => on_left,
        IntersectDirection::Bottom => on_bottom,
        IntersectDirection::Top => on_top,
    }
}

/// The side a crossing lies on, from the sides whose line it is on. A corner
/// is on two lines: the right side comes before the left, the bottom, and
/// the top. A crossing that is on no line is reported as on the left. So a
/// crossing that lies on the border is reported on a side it lies on.
pub fn crossing_side(on_right: bool, on_left: bool, on_bottom: bool, on_top: bool) -> (side:
    IntersectDirection)
    ensures
        on_right || on_left || on_bottom || on_top ==> lies_on(
            side,
            on_right,
            on_left,
            on_bottom,
            on_top,
        ),
        side == (if on_right {
            IntersectDirection::Right
        } else if on_left {
            IntersectDirection::Left
        } else if on_bottom {
            IntersectDirection::Bottom
        } else if on_top {
            IntersectDirection::Top
        } else {
            IntersectDirection::Left
        }),
{
    if on_right {
        IntersectDirection::Right
    } else if on_left {
        IntersectDirection::Left
    } else if on_bottom {
        IntersectDirection::Bottom
    } else if on_top {
        IntersectDirection::Top
    } else {
        IntersectDirection::Left
    }
}

/// Whether `pos` lies on the side `side` of `rect`: the coordinate that the
/// side fixes is equal to that of the side, and the other coordinate lies
/// between those of the two corners, these included.
pub open spec fn on_side(rect: Rect, pos: Pos2, side: IntersectDirection) -> bool {
    let at_max = compared(pos_as_vec(pos), pos_as_vec(rect_max(rect)));
    let at_min = compared(pos_as_vec(pos), pos_as_vec(rect_min(rect)));
    match side {
        IntersectDirection::Right => at_max.x == Comparison::Equal && at_min.y.at_least()
            && at_max.y.at_most(),
        IntersectDirection::Left => at_min.x == Comparison::Equal && at_min.y.at_least()
            && at_max.y.at_most(),
        IntersectDirection::Bottom => at_max.y == Comparison::Equal && at_min.x.at_least()
            && at_max.x.at_most(),
        IntersectDirection::Top => at_min.y == Comparison::Equal && at_min.x.at_least()
            && at_max.x.at_most(),
    }
}

/// Builds the corner of `facing_corner`. Each coordinate of it compares as
/// the coordinate of the corner of `rect` that it was taken from.
fn facing_corner_of(rect: &Rect, sign: &Compared) -> (corner: Pos2)
    ensures
        corner == facing_corner(*rect, *sign),
        forall|c: Vec2| #[trigger]
            compared_x(pos_as_vec(corner), c) == compared_x(
                pos_as_vec(
                    if sign.x == Comparison::Greater {
                        rect_max(*rect)
                    } else {
                        rect_min(*rect)
                    },
                ),
                c,
            ),
        forall|c: Vec2| #[trigger]
            compared_x(vec_all_y(pos_as_vec(corner)), c) == compared_x(
                vec_all_y(
                    pos_as_vec(
                        if sign.y == Comparison::Greater {
                            rect_max(*rect)
                        } else {
                            rect_min(*rect)
                        },
                    ),
                ),
                c,
            ),
{
    let across = if matches!(sign.x, Comparison::Greater) {
        rect_max_corner(rect)
    } else {
        rect_min_corner(rect)
    };
    let along = if matches!(sign.y, Comparison::Greater) {
        rect_max_corner(rect)
    } else {
        rect_min_corner(rect)
    };
    pos_mix(across, along)
}

/// Where the ray from `src_canvas_pos` towards `dst_canvas_pos` leaves
/// `canvas_rect`, and through which side. A ray without a direction, from a
/// position to itself, leaves nowhere, and so does a ray that meets no side
/// ahead of it; every other ray has a direction, however short it is.
///
/// The crossing lies on the border of the rectangle, on the side it is
/// reported on, as long as the rectangle is in good order: the coordinate
/// that the side fixes is taken from a corner as it is, and the other one
/// was found between the corners.
pub fn intersect_rect_with_pos(canvas_rect: Rect, src_canvas_pos: Pos2, dst_canvas_pos: Pos2) -> (crossing:
    Option<(Pos2, IntersectDirection)>)
    ensures
        crossing == crossing_of(canvas_rect, src_canvas_pos, dst_canvas_pos),
        crossing matches Some(found) ==> (in_order(canvas_rect) ==> on_side(
            canvas_rect,
            found.0,
            found.1,
        )),
        rect_has(canvas_rect, src_canvas_pos) && (runs_across(src_canvas_pos, dst_canvas_pos)
            || runs_along(src_canvas_pos, dst_canvas_pos)) ==> crossing is Some,
{
    let d = pos_delta(dst_canvas_pos, src_canvas_pos);
    let nothing = vec2_from_ints(0, 0);
    if compare(pos_to_vec(dst_canvas_pos), pos_to_vec(src_canvas_pos)).is_same() {
        return None;
    }
    let low = pos_to_vec(rect_min_corner(&canvas_rect));
    let high = pos_to_vec(rect_max_corner(&canvas_rect));
    let sign = compare(pos_to_vec(dst_canvas_pos), pos_to_vec(src_canvas_pos));
    let corner = facing_corner_of(&canvas_rect, &sign);
    let t = vec_div(pos_delta(corner, src_canvas_pos), d);
    let ahead = compare(t, nothing);

    let upright = if matches!(sign.x, Comparison::Greater | Comparison::Less)
        && ahead.x.is_at_least() {
        let point = pos_mix(corner, pos_add(src_canvas_pos, vec_scale(vec_splat_x(t), d)));
        if compare(pos_to_vec(point), low).y.is_at_least() && compare(
            pos_to_vec(point),
            high,
        ).y.is_at_most() {
            Some(point)
        } else {
            None
        }
    } else {
        None
    };
    let level = if matches!(sign.y, Comparison::Greater | Comparison::Less)
        && ahead.y.is_at_least() {
        let point = pos_mix(pos_add(src_canvas_pos, vec_scale(vec_splat_y(t), d)), corner);
        if compare(pos_to_vec(point), low).x.is_at_least() && compare(
            pos_to_vec(point),
            high,
        ).x.is_at_most() {
            Some(point)
        } else {
            None
        }
    } else {
        None
    };
    let order = compare(vec_splat_x(t), vec_splat_y(t));
    let level_is_nearer = matches!(order.x, Comparison::Greater);
    let runs_across = matches!(sign.x, Comparison::Greater | Comparison::Less);
    let runs_along = matches!(sign.y, Comparison::Greater | Comparison::Less);
    let met = first_crossing(upright, level, level_is_nearer);
    let exit = if met.is_none() && rect_contains(&canvas_rect, src_canvas_pos) {
        if runs_across && !(runs_along && level_is_nearer) {
            let point = pos_mix(corner, pos_add(src_canvas_pos, vec_scale(vec_splat_x(t), d)));
            Some(pos_mix(corner, keep_in(&canvas_rect, point)))
        } else if runs_along {
            let point = pos_mix(pos_add(src_canvas_pos, vec_scale(vec_splat_y(t), d)), corner);
            Some(pos_mix(keep_in(&canvas_rect, point), corner))
        } else {
            None
        }
    } else {
        met
    };
    match exit {
        None => None,
        Some(pos) => {
            let at_max = compare(pos_to_vec(pos), high);
            let at_min = compare(pos_to_vec(pos), low);
            let side = crossing_side(
                matches!(at_max.x, Comparison::Equal),
                matches!(at_min.x, Comparison::Equal),
                matches!(at_max.y, Comparison::Equal),
                matches!(at_min.y, Comparison::Equal),
            );
            Some((pos, side))
        },
    }
}

/// Where the ray from the centre of `canvas_rect` towards `canvas_pos`
/// leaves the rectangle, and through which side.
pub fn intersect_rect_simple(canvas_rect: Rect, canvas_pos: Pos2) -> (crossing: Option<
    (Pos2, IntersectDirection),
>)
    ensures
        crossing == crossing_of(canvas_rect, rect_center(canvas_rect), canvas_pos),
        crossing matches Some(found) ==> (in_order(canvas_rect) ==> on_side(
            canvas_rect,
            found.0,
            found.1,
        )),
        rect_has(canvas_rect, rect_center(canvas_rect)) && (runs_across(
            rect_center(canvas_rect),
            canvas_pos,
        ) || runs_along(rect_center(canvas_rect), canvas_pos)) ==> crossing is Some,
{
    intersect_rect_with_pos(canvas_rect, rect_middle(&canvas_rect), canvas_pos)
}

/// A ray from a position to itself leaves the rectangle nowhere. Every
/// other ray that starts in the rectangle leaves it somewhere, as long as
/// its two ends compare in some coordinate. A crossing is reported on a
/// side whose line it is found on, if it is found on any; that it is found
/// on one is what `intersect_rect_with_pos` adds.
pub proof fn lemma_ray_from_inside_leaves(rect: Rect, src: Pos2, dst: Pos2)
    ensures
        has_no_direction(src, dst) ==> crossing_of(rect, src, dst) is None,
        rect_has(rect, src) && (runs_across(src, dst) || runs_along(src, dst)) ==> crossing_of(
            rect,
            src,
            dst,
        ) is Some,
        crossing_of(rect, src, dst) matches Some((pos, side)) ==> {
            let at_max = compared(pos_as_vec(pos), pos_as_vec(rect_max(rect)));
            let at_min = compared(pos_as_vec(pos), pos_as_vec(rect_min(rect)));
            &&& side == side_of(rect, pos)
            &&& at_max.x == Comparison::Equal || at_min.x == Comparison::Equal || at_max.y
                == Comparison::Equal || at_min.y == Comparison::Equal ==> lies_on(
                side,
                at_max.x == Comparison::Equal,
                at_min.x == Comparison::Equal,
                at_max.y == Comparison::Equal,
                at_min.y == Comparison::Equal,
            )
        },
{
}

} // verus!
