//! The plane the editor draws on: positions, offsets, rectangles and the
//! canvas-to-screen transform are values of `egui`, and every computation on
//! their coordinates is done by `egui` itself.
//!
//! The verifier sees these values as opaque. Each operation below has a name
//! in contracts, and the executable function beside it makes the one
//! call to `egui`; that the call returns what the name stands for is taken on
//! trust for each of them. Every named operation works on the coordinates
//! with the four basic operations or by copying, so that equal arguments
//! give equal results. A length is the exception: it is known only as some
//! length that was measured.
use vstd::prelude::*;
use egui::emath::TSTransform;
use egui::{Pos2, Rect, Vec2};
use crate::order::compared_x;

verus! {

/// A position: `egui::Pos2`.
#[verifier::external_type_specification]
#[verifier::external_body]
pub struct ExPos2(Pos2);

/// An offset between positions: `egui::Vec2`.
#[verifier::external_type_specification]
#[verifier::external_body]
pub struct ExVec2(Vec2);

/// A rectangle with level and upright sides: `egui::Rect`.
#[verifier::external_type_specification]
#[verifier::external_body]
pub struct ExRect(Rect);

/// A scaling followed by a translation: `egui::emath::TSTransform`.
#[verifier::external_type_specification]
#[verifier::external_body]
pub struct ExTSTransform(TSTransform);

/// `Pos2` derives `Clone` beside `Copy`. Trusted: the clone is the position
/// itself.
pub assume_specification[ <Pos2 as Clone>::clone ](p: &Pos2) -> (q: Pos2)
    ensures
        q == *p,
;

/// `Rect` derives `Clone` beside `Copy`. Trusted: the clone is the rectangle
/// itself.
pub assume_specification[ <Rect as Clone>::clone ](r: &Rect) -> (s: Rect)
    ensures
        s == *r,
;

/// What `egui::vec2` returns for the whole numbers `x` and `y`: the offset
/// with these coordinates.
pub uninterp spec fn vec2_of(x: int, y: int) -> Vec2;

/// What `Pos2 + Vec2` returns: the position `p` moved by `v`.
pub uninterp spec fn pos_plus(p: Pos2, v: Vec2) -> Pos2;

/// What `Pos2 - Pos2` returns: the offset that leads from `b` to `a`.
pub uninterp spec fn pos_diff(a: Pos2, b: Pos2) -> Vec2;

/// What `Pos2::to_vec2` returns: the offset from the origin to `p`.
pub uninterp spec fn pos_as_vec(p: Pos2) -> Vec2;

/// What `Vec2::to_pos2` returns: the position that `v` leads to from the
/// origin.
pub uninterp spec fn vec_as_pos(v: Vec2) -> Pos2;

/// What `Vec2 * Vec2` returns: the offset whose coordinates are those of `a`
/// times those of `b`.
pub uninterp spec fn vec_times(a: Vec2, b: Vec2) -> Vec2;

/// What `Vec2 + Vec2` returns: the sum of two offsets.
pub uninterp spec fn vec_plus(a: Vec2, b: Vec2) -> Vec2;

/// What `Vec2 - Vec2` returns: the offset `a` less the offset `b`.
pub uninterp spec fn vec_minus(a: Vec2, b: Vec2) -> Vec2;

/// What `Vec2 / Vec2` returns: the offset whose coordinates are those of `a`
/// divided by those of `b`.
pub uninterp spec fn vec_over(a: Vec2, b: Vec2) -> Vec2;

/// What `Vec2::rot90` returns: the offset `v` turned by a quarter turn.
pub uninterp spec fn vec_rot90(v: Vec2) -> Vec2;

/// What `Vec2::splat` returns for the first coordinate of `v`: the offset
/// that has it in both coordinates.
pub uninterp spec fn vec_all_x(v: Vec2) -> Vec2;

/// What `Vec2::splat` returns for the second coordinate of `v`: the offset
/// that has it in both coordinates.
pub uninterp spec fn vec_all_y(v: Vec2) -> Vec2;

/// What `egui::pos2` returns for the first coordinate of `a` and the second
/// of `b`: the position that lies where `a` is from left to right and where
/// `b` is from top to bottom.
pub uninterp spec fn pos_mixed(a: Pos2, b: Pos2) -> Pos2;

/// What `Rect::contains` returns: whether `p` lies in `r`, the border
/// included.
pub uninterp spec fn rect_has(r: Rect, p: Pos2) -> bool;

/// What `Rect::center` returns: the middle of `r`.
pub uninterp spec fn rect_center(r: Rect) -> Pos2;

/// The field `min` of a `Rect`: the corner of `r` with the least
/// coordinates.
pub uninterp spec fn rect_min(r: Rect) -> Pos2;

/// The field `max` of a `Rect`: the corner of `r` with the greatest
/// coordinates.
pub uninterp spec fn rect_max(r: Rect) -> Pos2;

/// What `Rect::from_min_max` returns: the rectangle with the corners `min`
/// and `max`, taken as they are.
pub uninterp spec fn rect_of(min: Pos2, max: Pos2) -> Rect;

/// Whether `length`, in both coordinates, is a length that `Vec2::length`
/// can return for `v`. The length is taken by `hypot`, whose precision std
/// leaves open, so it is not a function of `v` that could be named.
pub uninterp spec fn length_measured(v: Vec2, length: Vec2) -> bool;

/// Whether `unit` is an offset that `Vec2::normalized` can return for `v`:
/// `v` brought to length one, or `v` itself when it has no length. It
/// divides by the length that `hypot` gives, so it is not a function of `v`
/// that could be named.
pub uninterp spec fn normalized_from(v: Vec2, unit: Vec2) -> bool;

/// What `Vec2::splat` returns for the scaling of `t`: the scale, as an
/// offset that has it in both coordinates.
pub uninterp spec fn ts_scale(t: TSTransform) -> Vec2;

/// What `TSTransform::new` returns: the transform that scales by the first
/// coordinate of `scale` and then moves by `translation`.
pub uninterp spec fn ts_built(translation: Vec2, scale: Vec2) -> TSTransform;

/// What `TSTransform::inverse` returns: the transform that undoes `t`.
pub uninterp spec fn ts_inverse(t: TSTransform) -> TSTransform;

/// What `Vec2 += Vec2` leaves on the translation of `t`: the transform `t`
/// with `v` added to its translation.
pub uninterp spec fn ts_shifted(t: TSTransform, v: Vec2) -> TSTransform;

/// What `TSTransform::mul_pos` returns: where `t` sends the position `p`.
pub uninterp spec fn ts_apply(t: TSTransform, p: Pos2) -> Pos2;

/// What `TSTransform::mul_rect` returns: where `t` sends the rectangle `r`.
pub uninterp spec fn ts_apply_rect(t: TSTransform, r: Rect) -> Rect;

/// Calls `egui::vec2` on `x` and `y`, each converted by `From`, which is
/// exact. Trusted: the result is `vec2_of(x, y)`.
#[verifier::external_body]
pub(crate) fn vec2_from_ints(x: i16, y: i16) -> (v: Vec2)
    ensures
        v == vec2_of(x as int, y as int),
{
    egui::vec2(x.into(), y.into())
}

/// Calls `egui::vec2` on the counts `x` and `y`, each converted by `From`,
/// which is exact. Trusted: the result is `vec2_of(x, y)`.
#[verifier::external_body]
pub(crate) fn vec2_from_counts(x: u16, y: u16) -> (v: Vec2)
    ensures
        v == vec2_of(x as int, y as int),
{
    egui::vec2(x.into(), y.into())
}

/// Calls `Pos2 + Vec2`. Trusted: the result is `pos_plus(p, v)`.
#[verifier::external_body]
pub(crate) fn pos_add(p: Pos2, v: Vec2) -> (q: Pos2)
    ensures
        q == pos_plus(p, v),
{
    p + v
}

/// Calls `Pos2 - Pos2`. Trusted: the result is `pos_diff(a, b)`.
#[verifier::external_body]
pub(crate) fn pos_delta(a: Pos2, b: Pos2) -> (v: Vec2)
    ensures
        v == pos_diff(a, b),
{
    a - b
}

/// Calls `Pos2::to_vec2`. Trusted: the result is `pos_as_vec(p)`.
#[verifier::external_body]
pub(crate) fn pos_to_vec(p: Pos2) -> (v: Vec2)
    ensures
        v == pos_as_vec(p),
{
    p.to_vec2()
}

/// Calls `Vec2::to_pos2`. Trusted: the result is `vec_as_pos(v)`.
#[verifier::external_body]
pub(crate) fn vec_to_pos(v: Vec2) -> (p: Pos2)
    ensures
        p == vec_as_pos(v),
{
    v.to_pos2()
}

/// Calls the element-wise `Vec2 * Vec2`. Trusted: the result is
/// `vec_times(a, b)`.
#[verifier::external_body]
pub(crate) fn vec_scale(a: Vec2, b: Vec2) -> (w: Vec2)
    ensures
        w == vec_times(a, b),
{
    a * b
}

/// Calls `Vec2 + Vec2`. Trusted: the result is `vec_plus(a, b)`.
#[verifier::external_body]
pub(crate) fn vec_add(a: Vec2, b: Vec2) -> (w: Vec2)
    ensures
        w == vec_plus(a, b),
{
    a + b
}

/// Calls `Vec2 - Vec2`. Trusted: the result is `vec_minus(a, b)`.
#[verifier::external_body]
pub(crate) fn vec_sub(a: Vec2, b: Vec2) -> (w: Vec2)
    ensures
        w == vec_minus(a, b),
{
    a - b
}

/// Calls the element-wise `Vec2 / Vec2`. Trusted: the result is
/// `vec_over(a, b)`.
#[verifier::external_body]
pub(crate) fn vec_div(a: Vec2, b: Vec2) -> (w: Vec2)
    ensures
        w == vec_over(a, b),
{
    a / b
}

/// Calls `Vec2::splat` on the first coordinate of `v`. Trusted: the result
/// is `vec_all_x(v)`.
#[verifier::external_body]
pub(crate) fn vec_splat_x(v: Vec2) -> (w: Vec2)
    ensures
        w == vec_all_x(v),
{
    Vec2::splat(v.x)
}

/// Calls `Vec2::splat` on the second coordinate of `v`. Trusted: the result
/// is `vec_all_y(v)`.
#[verifier::external_body]
pub(crate) fn vec_splat_y(v: Vec2) -> (w: Vec2)
    ensures
        w == vec_all_y(v),
{
    Vec2::splat(v.y)
}

/// Calls `egui::pos2` on the first coordinate of `a` and the second of `b`.
/// Trusted: the result is `pos_mixed(a, b)`; and since the two coordinates
/// are copied as they are, the first coordinate of the result compares with
/// any number as that of `a` does, and the second as that of `b` does.
#[verifier::external_body]
pub(crate) fn pos_mix(a: Pos2, b: Pos2) -> (p: Pos2)
    ensures
        p == pos_mixed(a, b),
        forall|c: Vec2| #[trigger] compared_x(pos_as_vec(p), c) == compared_x(pos_as_vec(a), c),
        forall|c: Vec2| #[trigger]
            compared_x(vec_all_y(pos_as_vec(p)), c) == compared_x(vec_all_y(pos_as_vec(b)), c),
{
    egui::pos2(a.x, b.y)
}

/// Calls `Vec2::length` and `Vec2::splat` on what it returns, to have the
/// length in both coordinates. Trusted: the result is a length measured for
/// `v`, and no more; the length is taken by `hypot`, whose precision is left
/// open by std.
#[verifier::external_body]
pub(crate) fn vec_length(v: Vec2) -> (w: Vec2)
    ensures
        length_measured(v, w),
{
    Vec2::splat(v.length())
}

/// Calls `Vec2::normalized`, which divides by the length that `hypot` gives.
/// Trusted: the result is `v` as this call normalizes it, and no more.
#[verifier::external_body]
pub(crate) fn vec_normalize(v: Vec2) -> (w: Vec2)
    ensures
        normalized_from(v, w),
{
    v.normalized()
}

/// Calls `Vec2::rot90`. Trusted: the result is `vec_rot90(v)`.
#[verifier::external_body]
pub(crate) fn vec_quarter_turn(v: Vec2) -> (w: Vec2)
    ensures
        w == vec_rot90(v),
{
    v.rot90()
}

/// Calls `Rect::contains`. Trusted: the result is `rect_has(*r, p)`.
#[verifier::external_body]
pub(crate) fn rect_contains(r: &Rect, p: Pos2) -> (b: bool)
    ensures
        b == rect_has(*r, p),
{
    r.contains(p)
}

/// Calls `Rect::center`. Trusted: the result is `rect_center(*r)`.
#[verifier::external_body]
pub(crate) fn rect_middle(r: &Rect) -> (p: Pos2)
    ensures
        p == rect_center(*r),
{
    r.center()
}

/// Reads the field `min` of a `Rect`. Trusted: the result is `rect_min(*r)`.
#[verifier::external_body]
pub(crate) fn rect_min_corner(r: &Rect) -> (p: Pos2)
    ensures
        p == rect_min(*r),
{
    r.min
}

/// Reads the field `max` of a `Rect`. Trusted: the result is `rect_max(*r)`.
#[verifier::external_body]
pub(crate) fn rect_max_corner(r: &Rect) -> (p: Pos2)
    ensures
        p == rect_max(*r),
{
    r.max
}

/// Calls `Rect::from_min_max`. Trusted: the result is `rect_of(min, max)`.
#[verifier::external_body]
pub(crate) fn rect_from_min_max(min: Pos2, max: Pos2) -> (r: Rect)
    ensures
        r == rect_of(min, max),
{
    Rect::from_min_max(min, max)
}

/// Calls `Vec2::splat` on the scaling of `t`. Trusted: the result is
/// `ts_scale(*t)`.
#[verifier::external_body]
pub(crate) fn transform_scale(t: &TSTransform) -> (v: Vec2)
    ensures
        v == ts_scale(*t),
{
    Vec2::splat(t.scaling)
}

/// Calls `TSTransform::new` with `translation` and the first coordinate of
/// `scale`. Trusted: the result is `ts_built(translation, scale)`.
#[verifier::external_body]
pub(crate) fn transform_build(translation: Vec2, scale: Vec2) -> (t: TSTransform)
    ensures
        t == ts_built(translation, scale),
{
    TSTransform::new(translation, scale.x)
}

/// Calls `TSTransform::inverse`. Trusted: the result is `ts_inverse(*t)`.
#[verifier::external_body]
pub(crate) fn transform_inverse(t: &TSTransform) -> (u: TSTransform)
    ensures
        u == ts_inverse(*t),
{
    t.inverse()
}

/// Calls `Vec2 += Vec2` on the translation of a copy of `t`. Trusted: the
/// result is `ts_shifted(*t, v)`.
#[verifier::external_body]
pub(crate) fn transform_shift(t: &TSTransform, v: Vec2) -> (u: TSTransform)
    ensures
        u == ts_shifted(*t, v),
{
    let mut u = *t;
    u.translation += v;
    u
}

/// Calls `TSTransform::mul_pos`. Trusted: the result is `ts_apply(*t, p)`.
#[verifier::external_body]
pub(crate) fn transform_pos(t: &TSTransform, p: Pos2) -> (q: Pos2)
    ensures
        q == ts_apply(*t, p),
{
    t.mul_pos(p)
}

/// Calls `TSTransform::mul_rect`. Trusted: the result is
/// `ts_apply_rect(*t, r)`.
#[verifier::external_body]
pub(crate) fn transform_rect(t: &TSTransform, r: Rect) -> (s: Rect)
    ensures
        s == ts_apply_rect(*t, r),
{
    t.mul_rect(r)
}

} // verus!
