//! The view onto the canvas.
//!
//! Nodes and anchors are placed in canvas space, which zoom and pan leave
//! alone. The transform of the view maps canvas space onto the pixels of the
//! screen: it scales about the canvas origin and then translates.
use vstd::prelude::*;
use egui::emath::TSTransform;
use egui::{Pos2, Rect, Vec2};
use crate::extent::{keep_between, kept_between};
use crate::order::compared_x;
use crate::plane::{
    pos_as_vec, pos_to_vec, transform_build, transform_inverse, transform_pos, transform_rect,
    transform_scale, transform_shift, ts_apply, ts_apply_rect, ts_built, ts_inverse, ts_scale,
    ts_shifted, vec2_from_ints, vec2_of, vec_as_pos, vec_div, vec_minus, vec_over, vec_scale,
    vec_sub, vec_times, vec_to_pos,
};

verus! {

/// The view onto the canvas, and the counters that number nodes and edges.
///
/// `transform` maps canvas space to screen space: it scales about the canvas
/// origin and then translates.
#[derive(Debug)]
pub struct CanvasState {
    pub transform: TSTransform,
    pub global_node_id: u64,
    pub global_edge_id: u64,
}

/// The number after `n` that a counter takes: one more, and zero after the
/// largest.
pub open spec fn next_id(n: u64) -> u64 {
    if n == u64::MAX {
        0
    } else {
        (n + 1) as u64
    }
}

/// The transform that leaves every position where it is: scale one, no
/// translation.
pub open spec fn identity_transform() -> TSTransform {
    ts_built(vec2_of(0, 0), vec2_of(1, 1))
}

/// The least scale of the view, as a fraction: one hundredth.
pub const MIN_SCALE_NUMERATOR: i16 = 1;

pub const MIN_SCALE_DENOMINATOR: i16 = 100;

/// The greatest scale of the view.
pub const MAX_SCALE: i16 = 1000;

/// The least scale of the view, in both coordinates.
pub open spec fn least_scale() -> Vec2 {
    vec_over(
        vec2_of(MIN_SCALE_NUMERATOR as int, MIN_SCALE_NUMERATOR as int),
        vec2_of(MIN_SCALE_DENOMINATOR as int, MIN_SCALE_DENOMINATOR as int),
    )
}

/// The greatest scale of the view, in both coordinates.
pub open spec fn greatest_scale() -> Vec2 {
    vec2_of(MAX_SCALE as int, MAX_SCALE as int)
}

/// The scale `scale` kept between the least and the greatest scale of the
/// view.
pub open spec fn clamped_scale(scale: Vec2) -> Vec2 {
    kept_between(scale, least_scale(), greatest_scale())
}

/// Whatever scale is asked for, the scale that a zoom sets is the least
/// scale, the greatest scale, or a scale that compares as lying between the
/// two.
pub proof fn lemma_zoom_scale_within_bounds(scale: Vec2)
    ensures
        clamped_scale(scale) == least_scale() || clamped_scale(scale) == greatest_scale() || (
        compared_x(clamped_scale(scale), least_scale()).at_least() && compared_x(
            clamped_scale(scale),
            greatest_scale(),
        ).at_most()),
{
}

/// The transform `t` after zooming by `step` about the screen position
/// `pivot_screen`. The scale becomes that of `t` times that of `step`, kept
/// within bounds. The translation becomes what sends the canvas point that
/// was under the pivot back to the pivot: the pivot less that point scaled.
pub open spec fn zoomed(t: TSTransform, pivot_screen: Pos2, step: TSTransform) -> TSTransform {
    let pivot_canvas = pos_as_vec(ts_apply(ts_inverse(t), pivot_screen));
    let scale = clamped_scale(vec_times(ts_scale(t), ts_scale(step)));
    ts_built(vec_minus(pos_as_vec(pivot_screen), vec_times(scale, pivot_canvas)), scale)
}

/// The screen offset `v` brought to canvas scale in the view `t`: divided by
/// the scale of the view.
pub open spec fn unscaled(t: TSTransform, v: Vec2) -> Vec2 {
    vec_over(v, ts_scale(t))
}

impl Default for CanvasState {
    fn default() -> (state: Self)
        ensures
            state.transform == identity_transform(),
            state.global_node_id == 0,
            state.global_edge_id == 0,
    {
        Self {
            transform: transform_build(vec2_from_ints(0, 0), vec2_from_ints(1, 1)),
            global_node_id: 0,
            global_edge_id: 0,
        }
    }
}

impl CanvasState {
    /// Hands out the next node id. Ids rise by one from call to call, so none
    /// comes twice before the counter has run through every `u64`.
    pub fn new_node_id(&mut self) -> (id: u64)
        ensures
            id == old(self).global_node_id,
            final(self).global_node_id == next_id(id),
            final(self).global_edge_id == old(self).global_edge_id,
            final(self).transform == old(self).transform,
    {
        let id = self.global_node_id;
        self.global_node_id = id.wrapping_add(1);
        id
    }

    /// Hands out the next edge id, in the same way as `new_node_id`.
    pub fn new_edge_id(&mut self) -> (id: u64)
        ensures
            id == old(self).global_edge_id,
            final(self).global_edge_id == next_id(id),
            final(self).global_node_id == old(self).global_node_id,
            final(self).transform == old(self).transform,
    {
        let id = self.global_edge_id;
        self.global_edge_id = id.wrapping_add(1);
        id
    }

    /// Where a canvas position appears on the screen.
    pub fn to_screen(&self, canvas_pos: Pos2) -> (screen_pos: Pos2)
        ensures
            screen_pos == ts_apply(self.transform, canvas_pos),
    {
        transform_pos(&self.transform, canvas_pos)
    }

    /// Where a canvas rectangle appears on the screen: both corners mapped.
    pub fn to_screen_rect(&self, canvas_rect: Rect) -> (screen_rect: Rect)
        ensures
            screen_rect == ts_apply_rect(self.transform, canvas_rect),
    {
        transform_rect(&self.transform, canvas_rect)
    }

    /// The canvas rectangle that appears as `screen_rect`.
    pub fn to_canvas_rect(&self, screen_rect: Rect) -> (canvas_rect: Rect)
        ensures
            canvas_rect == ts_apply_rect(ts_inverse(self.transform), screen_rect),
    {
        let inverse = transform_inverse(&self.transform);
        transform_rect(&inverse, screen_rect)
    }

    /// The canvas position that appears at `screen_pos`.
    pub fn to_canvas(&self, screen_pos: Pos2) -> (canvas_pos: Pos2)
        ensures
            canvas_pos == ts_apply(ts_inverse(self.transform), screen_pos),
    {
        let inverse = transform_inverse(&self.transform);
        transform_pos(&inverse, screen_pos)
    }

    /// `to_screen` for a position that is held as an offset from the origin.
    pub fn to_screen_vec2(&self, canvas_pos: Vec2) -> (screen_pos: Vec2)
        ensures
            screen_pos == pos_as_vec(ts_apply(self.transform, vec_as_pos(canvas_pos))),
    {
        let canvas_pos = vec_to_pos(canvas_pos);
        let screen_pos = transform_pos(&self.transform, canvas_pos);
        pos_to_vec(screen_pos)
    }

    /// `to_canvas` for a position that is held as an offset from the origin.
    pub fn to_canvas_vec2(&self, screen_pos: Vec2) -> (canvas_pos: Vec2)
        ensures
            canvas_pos == pos_as_vec(
                ts_apply(ts_inverse(self.transform), vec_as_pos(screen_pos)),
            ),
    {
        let screen_pos = vec_to_pos(screen_pos);
        let inverse = transform_inverse(&self.transform);
        let canvas_pos = transform_pos(&inverse, screen_pos);
        pos_to_vec(canvas_pos)
    }

    /// A screen offset brought to canvas scale: what a drag by so much on
    /// the screen moves on the canvas.
    pub fn to_canvas_delta(&self, delta_screen: Vec2) -> (delta_canvas: Vec2)
        ensures
            delta_canvas == unscaled(self.transform, delta_screen),
    {
        vec_div(delta_screen, transform_scale(&self.transform))
    }

    /// Zooms about the screen position `pivot_screen` by the scale of
    /// `step`. The canvas point under the pivot is taken before the
    /// transform changes, and the new transform sends it to the pivot again.
    /// The scale stays between one hundredth and a thousand.
    pub fn zoom(&mut self, pivot_screen: Pos2, step: TSTransform)
        ensures
            final(self).transform == zoomed(old(self).transform, pivot_screen, step),
            final(self).global_node_id == old(self).global_node_id,
            final(self).global_edge_id == old(self).global_edge_id,
    {
        let pivot_canvas = pos_to_vec(self.to_canvas(pivot_screen));
        let wanted = vec_scale(transform_scale(&self.transform), transform_scale(&step));
        let least = vec_div(
            vec2_from_ints(MIN_SCALE_NUMERATOR, MIN_SCALE_NUMERATOR),
            vec2_from_ints(MIN_SCALE_DENOMINATOR, MIN_SCALE_DENOMINATOR),
        );
        let greatest = vec2_from_ints(MAX_SCALE, MAX_SCALE);
        let scale = keep_between(wanted, least, greatest);
        let translation = vec_sub(pos_to_vec(pivot_screen), vec_scale(scale, pivot_canvas));
        self.transform = transform_build(translation, scale);
    }

    /// Pans by a screen-space offset: it is added to the translation as it
    /// is, whatever the zoom.
    pub fn pan(&mut self, delta_screen: Vec2)
        ensures
            final(self).transform == ts_shifted(old(self).transform, delta_screen),
            final(self).global_node_id == old(self).global_node_id,
            final(self).global_edge_id == old(self).global_edge_id,
    {
        self.transform = transform_shift(&self.transform, delta_screen);
    }
}

} // verus!
