//! The path of a curved edge: points on it, and the rectangle around it.
//!
//! A curve is made of cubic segments. The segment between two neighbouring
//! anchors starts at the first, leaves it towards its outbound handle,
//! arrives from the inbound handle of the second, and ends at the second.
//! Each segment is sampled at evenly spaced parameters from zero to one,
//! both included.
use vstd::prelude::*;
use egui::{Pos2, Rect, Vec2};
use crate::bezier::BezierWidget;
use crate::graph::anchor::BezierAnchor;
use crate::graph::edge::BezierEdge;
use crate::extent::{rect_extend, rect_from_corners, rect_grown, rect_spanning};
use crate::plane::{
    pos_as_vec, pos_to_vec, vec2_from_counts, vec2_of, vec_add, vec_as_pos, vec_div, vec_minus,
    vec_over, vec_plus, vec_scale, vec_sub, vec_times, vec_to_pos,
};

verus! {

/// The parameter of sample `step` out of `samples`, in both coordinates.
pub open spec fn sample_parameter(step: int, samples: int) -> Vec2 {
    vec_over(vec2_of(step, step), vec2_of(samples, samples))
}

/// The point at parameter `t` of the cubic segment from `start` to `end` with
/// the handles `out` and `inward`, by the polynomial
/// `u^3 start + 3 u^2 t out + 3 u t^2 inward + t^3 end` with `u = 1 - t`, worked out in
/// each coordinate from left to right.
pub open spec fn bezier_point(start: Pos2, out: Pos2, inward: Pos2, end: Pos2, t: Vec2) -> Pos2 {
    let three = vec2_of(3, 3);
    let t2 = vec_times(t, t);
    let t3 = vec_times(t2, t);
    let u = vec_minus(vec2_of(1, 1), t);
    let u2 = vec_times(u, u);
    let u3 = vec_times(u2, u);
    let part_start = vec_times(u3, pos_as_vec(start));
    let part_out = vec_times(vec_times(vec_times(three, u2), t), pos_as_vec(out));
    let part_in = vec_times(vec_times(vec_times(three, u), t2), pos_as_vec(inward));
    let part_end = vec_times(t3, pos_as_vec(end));
    vec_as_pos(vec_plus(vec_plus(vec_plus(part_start, part_out), part_in), part_end))
}

/// The sample `step` out of `samples` on the segment between two anchors.
pub open spec fn segment_point(from: BezierAnchor, to: BezierAnchor, step: int, samples: int) -> Pos2 {
    bezier_point(
        from.canvas_pos,
        from.handle_out_canvas_pos,
        to.handle_in_canvas_pos,
        to.canvas_pos,
        sample_parameter(step, samples),
    )
}

/// The samples of a curve with the anchors `anchors`, segment after segment:
/// `samples + 1` points for each.
pub open spec fn path_of(anchors: Seq<BezierAnchor>, samples: int) -> Seq<Pos2> {
    Seq::new(
        ((anchors.len() - 1) * (samples + 1)) as nat,
        |k: int|
            segment_point(
                anchors[k / (samples + 1)],
                anchors[k / (samples + 1) + 1],
                k % (samples + 1),
                samples,
            ),
    )
}

/// The rectangle around `points`: the first point, made to hold each of the
/// others in turn.
pub open spec fn bounds_of(points: Seq<Pos2>) -> Rect
    recommends
        points.len() > 0,
    decreases points.len(),
{
    if points.len() <= 1 {
        rect_spanning(points[0], points[0])
    } else {
        rect_grown(bounds_of(points.drop_last()), points.last())
    }
}

/// The point of a cubic segment at the sample `step` out of `samples`.
pub fn cubic_bezier(start: Pos2, out: Pos2, inward: Pos2, end: Pos2, step: u16, samples: u16) -> (point:
    Pos2)
    ensures
        point == bezier_point(start, out, inward, end, sample_parameter(step as int, samples as int)),
{
    let t = vec_div(vec2_from_counts(step, step), vec2_from_counts(samples, samples));
    let three = vec2_from_counts(3, 3);
    let t2 = vec_scale(t, t);
    let t3 = vec_scale(t2, t);
    let u = vec_sub(vec2_from_counts(1, 1), t);
    let u2 = vec_scale(u, u);
    let u3 = vec_scale(u2, u);
    let part_start = vec_scale(u3, pos_to_vec(start));
    let part_out = vec_scale(vec_scale(vec_scale(three, u2), t), pos_to_vec(out));
    let part_in = vec_scale(vec_scale(vec_scale(three, u), t2), pos_to_vec(inward));
    let part_end = vec_scale(t3, pos_to_vec(end));
    vec_to_pos(vec_add(vec_add(vec_add(part_start, part_out), part_in), part_end))
}

/// Appends the samples of one segment.
fn push_segment(points: &mut Vec<Pos2>, from: &BezierAnchor, to: &BezierAnchor, samples: u16)
    ensures
        final(points)@ == old(points)@ + Seq::new(
            (samples + 1) as nat,
            |step: int| segment_point(*from, *to, step, samples as int),
        ),
{
    let mut step: u16 = 0;
    let mut done = false;
    while !done
        invariant
            step <= samples,
            done ==> step == samples,
            points@ == old(points)@ + Seq::new(
                (if done {
                    step + 1
                } else {
                    step as int
                }) as nat,
                |s: int| segment_point(*from, *to, s, samples as int),
            ),
        decreases
                (if done {
                    0
                } else {
                    samples + 1 - step
                }),
    {
        let point = cubic_bezier(
            from.canvas_pos,
            from.handle_out_canvas_pos,
            to.handle_in_canvas_pos,
            to.canvas_pos,
            step,
            samples,
        );
        points.push(point);
        if step == samples {
            done = true;
        } else {
            step += 1;
        }
    }
}

impl BezierEdge {
    /// The samples of the curve, segment after segment from the source to
    /// the target, each segment cut at `samples + 1` points.
    pub fn path_points(&self, samples: u16) -> (points: Vec<Pos2>)
        ensures
            points@ == path_of(self.full_anchors(), samples as int),
    {
        let mut points: Vec<Pos2> = Vec::new();
        let n = self.control_anchors.len();
        let ghost full = self.full_anchors();
        let ghost per = samples as int + 1;
        let mut previous = self.source_anchor;
        let mut i: usize = 0;
        while i < n
            invariant
                i <= n,
                n == self.control_anchors.len(),
                per == samples as int + 1,
                full == self.full_anchors(),
                previous == full[i as int],
                points@.len() == i * per,
                forall|k: int|
                    0 <= k < i * per ==> #[trigger] points@[k] == segment_point(
                        full[k / per],
                        full[k / per + 1],
                        k % per,
                        samples as int,
                    ),
            decreases n - i,
        {
            let next = self.control_anchors[i];
            let ghost before = points@;
            push_segment(&mut points, &previous, &next, samples);
            proof {
                lemma_segment_added(before, points@, full, i as int, per, samples as int);
            }
            previous = next;
            i += 1;
        }
        let ghost before = points@;
        push_segment(&mut points, &previous, &self.target_anchor, samples);
        proof {
            lemma_segment_added(before, points@, full, n as int, per, samples as int);
        }
        points
    }
}

/// After segment `i` was appended, the first `i + 1` segments are in place.
proof fn lemma_segment_added(
    before: Seq<Pos2>,
    after: Seq<Pos2>,
    full: Seq<BezierAnchor>,
    i: int,
    per: int,
    samples: int,
)
    requires
        0 <= i,
        i + 1 < full.len(),
        per == samples + 1,
        samples >= 0,
        before.len() == i * per,
        forall|k: int|
            0 <= k < i * per ==> #[trigger] before[k] == segment_point(
                full[k / per],
                full[k / per + 1],
                k % per,
                samples,
            ),
        after == before + Seq::new(
            per as nat,
            |step: int| segment_point(full[i], full[i + 1], step, samples),
        ),
    ensures
        after.len() == (i + 1) * per,
        forall|k: int|
            0 <= k < (i + 1) * per ==> #[trigger] after[k] == segment_point(
                full[k / per],
                full[k / per + 1],
                k % per,
                samples,
            ),
{
    assert((i + 1) * per == i * per + per) by (nonlinear_arith);
    assert forall|k: int| 0 <= k < (i + 1) * per implies #[trigger] after[k] == segment_point(
        full[k / per],
        full[k / per + 1],
        k % per,
        samples,
    ) by {
        if k < i * per {
        } else {
            let step = k - i * per;
            assert(k / per == i && k % per == step) by (nonlinear_arith)
                requires
                    k == i * per + step,
                    0 <= step < per,
                    per > 0,
            ;
        }
    }
}

/// The rectangle around a list of points that is not empty.
pub fn bounding_of_points(points: &Vec<Pos2>) -> (rect: Rect)
    requires
        points.len() > 0,
    ensures
        rect == bounds_of(points@),
{
    let mut rect = rect_from_corners(points[0], points[0]);
    let mut i: usize = 1;
    while i < points.len()
        invariant
            1 <= i <= points.len(),
            rect == bounds_of(points@.take(i as int)),
        decreases points.len() - i,
    {
        proof {
            let next = points@.take(i + 1);
            assert(next.drop_last() == points@.take(i as int));
        }
        rect = rect_extend(rect, points[i]);
        i += 1;
    }
    proof {
        assert(points@.take(i as int) == points@);
    }
    rect
}

impl BezierWidget {
    /// The rectangle around the curve as it is sampled with `samples` steps
    /// to a segment.
    pub fn bounding_rect(&self, samples: u16) -> (rect: Rect)
        ensures
            rect == bounds_of(path_of(self.edge.full_anchors(), samples as int)),
    {
        let points = self.edge.path_points(samples);
        proof {
            assert(path_of(self.edge.full_anchors(), samples as int).len() > 0) by {
                assert((self.edge.full_anchors().len() - 1) * (samples + 1) > 0)
                    by (nonlinear_arith)
                    requires
                        self.edge.full_anchors().len() >= 2,
                        samples >= 0,
                ;
            }
        }
        bounding_of_points(&points)
    }
}

} // verus!
