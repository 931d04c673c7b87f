//! Picking the lesser and the greater of two coordinates, and the rectangle
//! around positions.
//!
//! Which of two coordinates is the lesser is decided by comparing them, and
//! the one that is picked is copied as it is. Of two coordinates that
//! compare equal, or that do not compare at all, the first is kept.
use vstd::prelude::*;
use egui::{Pos2, Rect, Vec2};
use crate::order::{compare, compare_x, compared, compared_x, Comparison};
use crate::plane::{
    pos_as_vec, pos_mix, pos_mixed, pos_to_vec, rect_from_min_max, rect_max, rect_max_corner,
    rect_min, rect_min_corner, rect_of,
};

verus! {

/// The scale `scale` kept between `least` and `greatest`, all three with
/// their number in the first coordinate: `least` unless `scale` is at least
/// that, `greatest` unless it is at most that, else `scale` itself. A scale
/// that is no number gives `least`.
pub open spec fn kept_between(scale: Vec2, least: Vec2, greatest: Vec2) -> Vec2 {
    if !compared_x(scale, least).at_least() {
        least
    } else if !compared_x(scale, greatest).at_most() {
        greatest
    } else {
        scale
    }
}

/// Keeps `scale` between `least` and `greatest`. What comes out is one of
/// the two bounds or compares as lying between them.
pub fn keep_between(scale: Vec2, least: Vec2, greatest: Vec2) -> (kept: Vec2)
    ensures
        kept == kept_between(scale, least, greatest),
        kept == least || kept == greatest || (compared_x(kept, least).at_least() && compared_x(
            kept,
            greatest,
        ).at_most()),
{
    if !compare_x(scale, least).is_at_least() {
        least
    } else if !compare_x(scale, greatest).is_at_most() {
        greatest
    } else {
        scale
    }
}

/// The position that has, in each coordinate, the lesser of the coordinates
/// of `a` and `b`.
pub open spec fn least_corner(a: Pos2, b: Pos2) -> Pos2 {
    let c = compared(pos_as_vec(b), pos_as_vec(a));
    pos_mixed(
        if c.x == Comparison::Less {
            b
        } else {
            a
        },
        if c.y == Comparison::Less {
            b
        } else {
            a
        },
    )
}

/// The position that has, in each coordinate, the greater of the
/// coordinates of `a` and `b`.
pub open spec fn greatest_corner(a: Pos2, b: Pos2) -> Pos2 {
    let c = compared(pos_as_vec(b), pos_as_vec(a));
    pos_mixed(
        if c.x == Comparison::Greater {
            b
        } else {
            a
        },
        if c.y == Comparison::Greater {
            b
        } else {
            a
        },
    )
}

/// The smallest rectangle that holds both `a` and `b`.
pub open spec fn rect_spanning(a: Pos2, b: Pos2) -> Rect {
    rect_of(least_corner(a, b), greatest_corner(a, b))
}

/// The rectangle `r` made just large enough to hold `p` as well.
pub open spec fn rect_grown(r: Rect, p: Pos2) -> Rect {
    rect_of(least_corner(rect_min(r), p), greatest_corner(rect_max(r), p))
}

/// Builds the two corners of the rectangle around `low`, `high` and `p`,
/// where `low` and `high` may be one position.
fn corners(low: Pos2, high: Pos2, p: Pos2) -> (r: Rect)
    ensures
        r == rect_of(least_corner(low, p), greatest_corner(high, p)),
{
    let below = compare(pos_to_vec(p), pos_to_vec(low));
    let above = compare(pos_to_vec(p), pos_to_vec(high));
    let min = pos_mix(
        if matches!(below.x, Comparison::Less) {
            p
        } else {
            low
        },
        if matches!(below.y, Comparison::Less) {
            p
        } else {
            low
        },
    );
    let max = pos_mix(
        if matches!(above.x, Comparison::Greater) {
            p
        } else {
            high
        },
        if matches!(above.y, Comparison::Greater) {
            p
        } else {
            high
        },
    );
    rect_from_min_max(min, max)
}

/// The smallest rectangle that holds both `a` and `b`, whichever way they
/// lie to each other.
pub fn rect_from_corners(a: Pos2, b: Pos2) -> (r: Rect)
    ensures
        r == rect_spanning(a, b),
{
    corners(a, a, b)
}

/// The rectangle `r` made just large enough to hold `p` as well.
pub fn rect_extend(r: Rect, p: Pos2) -> (s: Rect)
    ensures
        s == rect_grown(r, p),
{
    corners(rect_min_corner(&r), rect_max_corner(&r), p)
}

/// Whether `rect` is a rectangle in good order: the coordinates of its
/// corners are numbers, which compare equal to themselves, and the least
/// corner is not beyond the greatest in either coordinate.
pub open spec fn in_order(rect: Rect) -> bool {
    let low = pos_as_vec(rect_min(rect));
    let high = pos_as_vec(rect_max(rect));
    &&& compared(low, low).same()
    &&& compared(high, high).same()
    &&& compared(low, high).x.at_most() && compared(low, high).y.at_most()
    &&& compared(high, low).x.at_least() && compared(high, low).y.at_least()
}

/// Whether `p` compares as lying in `rect`, the border included.
pub open spec fn lies_within(rect: Rect, p: Pos2) -> bool {
    let at_min = compared(pos_as_vec(p), pos_as_vec(rect_min(rect)));
    let at_max = compared(pos_as_vec(p), pos_as_vec(rect_max(rect)));
    at_min.x.at_least() && at_min.y.at_least() && at_max.x.at_most() && at_max.y.at_most()
}

/// The position `p` brought into `rect`: a coordinate that does not compare
/// as at least that of the least corner is replaced by it, one that does
/// not compare as at most that of the greatest corner is replaced by that,
/// and one that lies between the two stays as it is.
pub open spec fn kept_in(rect: Rect, p: Pos2) -> Pos2 {
    let low = rect_min(rect);
    let high = rect_max(rect);
    let at_min = compared(pos_as_vec(p), pos_as_vec(low));
    let at_max = compared(pos_as_vec(p), pos_as_vec(high));
    pos_mixed(
        if !at_min.x.at_least() {
            low
        } else if !at_max.x.at_most() {
            high
        } else {
            p
        },
        if !at_min.y.at_least() {
            low
        } else if !at_max.y.at_most() {
            high
        } else {
            p
        },
    )
}

/// Brings `p` into `rect`. In a rectangle that is in good order, what comes
/// out lies within it.
pub fn keep_in(rect: &Rect, p: Pos2) -> (kept: Pos2)
    ensures
        kept == kept_in(*rect, p),
        in_order(*rect) ==> lies_within(*rect, kept),
{
    let low = rect_min_corner(rect);
    let high = rect_max_corner(rect);
    let at_min = compare(pos_to_vec(p), pos_to_vec(low));
    let at_max = compare(pos_to_vec(p), pos_to_vec(high));
    let across = if !at_min.x.is_at_least() {
        low
    } else if !at_max.x.is_at_most() {
        high
    } else {
        p
    };
    let along = if !at_min.y.is_at_least() {
        low
    } else if !at_max.y.is_at_most() {
        high
    } else {
        p
    };
    pos_mix(across, along)
}

} // verus!
