//! Dragging the anchors and handles of a curved edge, and deciding what a
//! press on the curve takes hold of.
use vstd::prelude::*;
use egui::{Pos2, Vec2};
use crate::canvas::{unscaled, CanvasState};
use crate::graph::anchor::{mirror, mirrored, BezierAnchor};
use crate::graph::edge::BezierEdge;
use crate::curve::{bounding_of_points, bounds_of, path_of};
use crate::hit_test::{lemma_grip_by_wider_judge, reach_judge, within_reach};
use crate::plane::{pos_add, pos_plus, rect_contains, rect_has};

verus! {

/// What a drag on a curved edge moves.
#[derive(Debug, PartialEq, Eq, Copy, Clone, Structural)]
pub enum DragType {
    NoDrag,
    Anchor,
    HandleIn,
    HandleOut,
    MoveBezier,
}

/// `anchor` moved as a whole by `delta`; a smooth anchor has its outbound
/// handle mirrored afterwards.
pub open spec fn anchor_dragged(anchor: BezierAnchor, delta: Vec2) -> BezierAnchor {
    let canvas_pos = pos_plus(anchor.canvas_pos, delta);
    let handle_in = pos_plus(anchor.handle_in_canvas_pos, delta);
    BezierAnchor {
        canvas_pos,
        handle_in_canvas_pos: handle_in,
        handle_out_canvas_pos: if anchor.is_smooth {
            mirrored(canvas_pos, handle_in)
        } else {
            pos_plus(anchor.handle_out_canvas_pos, delta)
        },
        is_smooth: anchor.is_smooth,
    }
}

/// `anchor` with its inbound handle moved by `delta`; a smooth anchor has its
/// outbound handle put opposite.
pub open spec fn handle_in_dragged(anchor: BezierAnchor, delta: Vec2) -> BezierAnchor {
    let handle_in = pos_plus(anchor.handle_in_canvas_pos, delta);
    BezierAnchor {
        canvas_pos: anchor.canvas_pos,
        handle_in_canvas_pos: handle_in,
        handle_out_canvas_pos: if anchor.is_smooth {
            mirrored(anchor.canvas_pos, handle_in)
        } else {
            anchor.handle_out_canvas_pos
        },
        is_smooth: anchor.is_smooth,
    }
}

/// `anchor` with its outbound handle moved by `delta`; a smooth anchor has
/// its inbound handle put opposite.
pub open spec fn handle_out_dragged(anchor: BezierAnchor, delta: Vec2) -> BezierAnchor {
    let handle_out = pos_plus(anchor.handle_out_canvas_pos, delta);
    BezierAnchor {
        canvas_pos: anchor.canvas_pos,
        handle_in_canvas_pos: if anchor.is_smooth {
            mirrored(anchor.canvas_pos, handle_out)
        } else {
            anchor.handle_in_canvas_pos
        },
        handle_out_canvas_pos: handle_out,
        is_smooth: anchor.is_smooth,
    }
}

/// `anchor` moved with its whole curve by `delta`: the anchor and both its
/// handles move alike, and a smooth anchor has its outbound handle mirrored
/// afterwards, as when it is dragged alone.
pub open spec fn anchor_shifted(anchor: BezierAnchor, delta: Vec2) -> BezierAnchor {
    anchor_dragged(anchor, delta)
}

/// Every drag step leaves a smooth anchor with its handles mirrored,
/// whichever part of it is held, and so does a move of the whole curve. A
/// drag turns no anchor smooth or sharp.
pub proof fn lemma_drag_keeps_smooth(anchor: BezierAnchor, part: DragType, delta: Vec2)
    requires
        anchor.wf(),
    ensures
        part_dragged(anchor, part, delta).wf(),
        part_dragged(anchor, part, delta).is_smooth == anchor.is_smooth,
        anchor_shifted(anchor, delta).wf(),
        anchor_shifted(anchor, delta).is_smooth == anchor.is_smooth,
{
}

/// What one drag step does to the anchor it holds, for each part that can be
/// held. A drag that holds no single anchor leaves it alone.
pub open spec fn part_dragged(anchor: BezierAnchor, part: DragType, delta: Vec2) -> BezierAnchor {
    match part {
        DragType::Anchor => anchor_dragged(anchor, delta),
        DragType::HandleIn => handle_in_dragged(anchor, delta),
        DragType::HandleOut => handle_out_dragged(anchor, delta),
        _ => anchor,
    }
}

impl BezierAnchor {
    /// Moves the anchor with its handles and keeps a smooth anchor smooth.
    pub fn drag(&mut self, delta: Vec2)
        ensures
            *final(self) == anchor_dragged(*old(self), delta),
            final(self).wf(),
    {
        self.canvas_pos = pos_add(self.canvas_pos, delta);
        self.handle_in_canvas_pos = pos_add(self.handle_in_canvas_pos, delta);
        self.handle_out_canvas_pos = pos_add(self.handle_out_canvas_pos, delta);
        if self.is_smooth {
            self.enforce_smooth();
        }
    }

    /// Moves the inbound handle; on a smooth anchor the outbound handle is
    /// put opposite to it.
    pub fn drag_handle_in(&mut self, delta: Vec2)
        ensures
            *final(self) == handle_in_dragged(*old(self), delta),
            final(self).wf(),
    {
        self.handle_in_canvas_pos = pos_add(self.handle_in_canvas_pos, delta);
        if self.is_smooth {
            self.handle_out_canvas_pos = mirror(self.canvas_pos, self.handle_in_canvas_pos);
        }
    }

    /// Moves the outbound handle; on a smooth anchor the inbound handle is
    /// put opposite to it.
    pub fn drag_handle_out(&mut self, delta: Vec2)
        ensures
            *final(self) == handle_out_dragged(*old(self), delta),
            final(self).wf(),
    {
        self.handle_out_canvas_pos = pos_add(self.handle_out_canvas_pos, delta);
        if self.is_smooth {
            self.handle_in_canvas_pos = mirror(self.canvas_pos, self.handle_out_canvas_pos);
        }
    }

    /// Moves the anchor and its handles alike, as part of a move of the
    /// whole curve, and keeps a smooth anchor smooth.
    pub fn shift(&mut self, delta: Vec2)
        ensures
            *final(self) == anchor_shifted(*old(self), delta),
            final(self).wf(),
    {
        self.drag(delta);
    }

    /// One drag step on the part `part` of this anchor.
    pub fn drag_part(&mut self, part: DragType, delta: Vec2)
        ensures
            *final(self) == part_dragged(*old(self), part, delta),
            old(self).wf() ==> final(self).wf(),
    {
        match part {
            DragType::Anchor => self.drag(delta),
            DragType::HandleIn => self.drag_handle_in(delta),
            DragType::HandleOut => self.drag_handle_out(delta),
            _ => {},
        }
    }
}

impl BezierEdge {
    /// How many anchors the curve has, its two ends included.
    pub open spec fn anchor_count(self) -> int {
        (self.control_anchors@.len() + 2) as int
    }

    /// One drag step on the part `part` of the anchor at place `index`. An
    /// `index` past the last anchor moves nothing.
    pub fn drag_point(&mut self, index: usize, part: DragType, delta: Vec2)
        ensures
            0 <= index < old(self).anchor_count() ==> final(self).full_anchors() == old(
                self,
            ).full_anchors().update(
                index as int,
                part_dragged(old(self).full_anchors()[index as int], part, delta),
            ),
            index >= old(self).anchor_count() ==> *final(self) == *old(self),
            final(self).control_anchors@.len() == old(self).control_anchors@.len(),
    {
        let n = self.control_anchors.len();
        if index == 0 {
            self.source_anchor.drag_part(part, delta);
        } else if index - 1 < n {
            let mut anchor = self.control_anchors[index - 1];
            anchor.drag_part(part, delta);
            self.control_anchors[index - 1] = anchor;
        } else if index - 1 == n {
            self.target_anchor.drag_part(part, delta);
        }
    }

    /// Moves the whole curve: every anchor and every handle by `delta`.
    /// Every smooth anchor has its handles mirrored afterwards.
    pub fn drag_all(&mut self, delta: Vec2)
        ensures
            final(self).full_anchors() == old(self).full_anchors().map_values(
                |a: BezierAnchor| anchor_shifted(a, delta),
            ),
            final(self).control_anchors@.len() == old(self).control_anchors@.len(),
            forall|i: int|
                0 <= i < final(self).full_anchors().len() ==> (#[trigger] final(self).full_anchors()[i]).wf(),
    {
        self.source_anchor.shift(delta);
        self.target_anchor.shift(delta);
        let n = self.control_anchors.len();
        let mut i: usize = 0;
        while i < n
            invariant
                i <= n,
                n == self.control_anchors.len(),
                n == old(self).control_anchors.len(),
                self.source_anchor == anchor_shifted(old(self).source_anchor, delta),
                self.target_anchor == anchor_shifted(old(self).target_anchor, delta),
                forall|j: int|
                    0 <= j < i ==> self.control_anchors[j] == anchor_shifted(
                        old(self).control_anchors[j],
                        delta,
                    ),
                forall|j: int| i <= j < n ==> self.control_anchors[j] == old(self).control_anchors[j],
            decreases n - i,
        {
            let mut anchor = self.control_anchors[i];
            anchor.shift(delta);
            self.control_anchors[i] = anchor;
            i += 1;
        }
    }
}

/// How many steps a segment of a curve is cut into when the curve is
/// searched for the pointer.
pub const PATH_SAMPLES: u16 = 100;

/// The judgement of distance that the function `near` stands for: for each
/// canvas position, the answers that `near` can give when it is asked
/// whether the position is within reach of the pointer. The editor judges
/// by `hit_test::within_reach`; a caller may judge otherwise.
pub open spec fn judge_of<F: Fn(Pos2) -> bool>(near: &F) -> spec_fn(Pos2, bool) -> bool {
    |p: Pos2, answer: bool| near.ensures((p,), answer)
}

/// Whether `found` is what a search of `points` from place `from` up to, not
/// including, place `to` comes to: the first place whose point was judged
/// near, every place before it having been judged not near, or nothing when
/// every place was judged not near.
pub open spec fn is_first_near(
    judge: spec_fn(Pos2, bool) -> bool,
    points: Seq<Pos2>,
    from: int,
    to: int,
    found: Option<int>,
) -> bool {
    match found {
        Some(i) => from <= i < to && judge(points[i], true) && forall|j: int|
            from <= j < i ==> judge(#[trigger] points[j], false),
        None => forall|j: int| from <= j < to ==> judge(#[trigger] points[j], false),
    }
}

/// Whether place `k` is the first of `points` whose point was judged near.
pub open spec fn is_first_near_at(judge: spec_fn(Pos2, bool) -> bool, points: Seq<Pos2>, k: int) -> bool {
    is_first_near(judge, points, 0, points.len() as int, Some(k))
}

/// The inbound handles of `anchors`, in order.
pub open spec fn handles_in(anchors: Seq<BezierAnchor>) -> Seq<Pos2> {
    Seq::new(anchors.len(), |i: int| anchors[i].handle_in_canvas_pos)
}

/// The outbound handles of `anchors`, in order.
pub open spec fn handles_out(anchors: Seq<BezierAnchor>) -> Seq<Pos2> {
    Seq::new(anchors.len(), |i: int| anchors[i].handle_out_canvas_pos)
}

/// The positions of `anchors`, in order.
pub open spec fn positions(anchors: Seq<BezierAnchor>) -> Seq<Pos2> {
    Seq::new(anchors.len(), |i: int| anchors[i].canvas_pos)
}

/// Whether `grip` is what a press at `world_pos` takes hold of on the curve
/// `edge`, and at which anchor, `judge` telling what is within reach.
///
/// Handles come before anchors and anchors before the path. First the
/// inbound handle of every anchor but the first is tried, in order; then the
/// outbound handle of every anchor but the last; then every control anchor;
/// then, if `world_pos` lies in the rectangle around the sampled path, the
/// samples of the path. The first that is near decides. Nothing is taken
/// hold of when none is.
pub open spec fn is_grip(
    judge: spec_fn(Pos2, bool) -> bool,
    edge: BezierEdge,
    world_pos: Pos2,
    grip: (DragType, Option<int>),
) -> bool {
    let anchors = edge.full_anchors();
    let n = anchors.len() as int;
    let path = path_of(anchors, PATH_SAMPLES as int);
    let no_handle_in = is_first_near(judge, handles_in(anchors), 1, n, None);
    let no_handle_out = is_first_near(judge, handles_out(anchors), 0, n - 1, None);
    let no_anchor = is_first_near(judge, positions(anchors), 1, n - 1, None);
    match grip.0 {
        DragType::HandleIn => grip.1 is Some && is_first_near(
            judge,
            handles_in(anchors),
            1,
            n,
            grip.1,
        ),
        DragType::HandleOut => no_handle_in && grip.1 is Some && is_first_near(
            judge,
            handles_out(anchors),
            0,
            n - 1,
            grip.1,
        ),
        DragType::Anchor => no_handle_in && no_handle_out && grip.1 is Some && is_first_near(
            judge,
            positions(anchors),
            1,
            n - 1,
            grip.1,
        ),
        DragType::MoveBezier => no_handle_in && no_handle_out && no_anchor && grip.1 is None
            && rect_has(bounds_of(path), world_pos) && exists|k: int|
            #[trigger] is_first_near_at(judge, path, k),
        DragType::NoDrag => no_handle_in && no_handle_out && no_anchor && grip.1 is None && (
        !rect_has(bounds_of(path), world_pos) || is_first_near(
            judge,
            path,
            0,
            path.len() as int,
            None,
        )),
    }
}

/// Searches `points` from place `from` up to, not including, place `to`
/// for the first point that is near.
fn find_near<F: Fn(Pos2) -> bool>(points: &Vec<Pos2>, from: usize, to: usize, near: &F) -> (found:
    Option<usize>)
    requires
        to <= points.len(),
        forall|p: Pos2| near.requires((p,)),
    ensures
        is_first_near(
            judge_of(near),
            points@,
            from as int,
            to as int,
            match found {
                Some(i) => Some(i as int),
                None => None,
            },
        ),
{
    let mut i = from;
    while i < to
        invariant
            from <= i,
            to <= points.len(),
            forall|p: Pos2| near.requires((p,)),
            forall|j: int| from <= j < i ==> judge_of(near)(#[trigger] points[j], false),
        decreases to - i,
    {
        if near(points[i]) {
            return Some(i);
        }
        i += 1;
    }
    None
}

impl BezierEdge {
    /// Every anchor of the curve in the order it is drawn.
    pub fn full_anchor_list(&self) -> (anchors: Vec<BezierAnchor>)
        ensures
            anchors@ == self.full_anchors(),
    {
        let mut anchors: Vec<BezierAnchor> = Vec::new();
        anchors.push(self.source_anchor);
        let mut i: usize = 0;
        while i < self.control_anchors.len()
            invariant
                i <= self.control_anchors.len(),
                anchors@ == seq![self.source_anchor] + self.control_anchors@.take(i as int),
            decreases self.control_anchors.len() - i,
        {
            anchors.push(self.control_anchors[i]);
            i += 1;
        }
        anchors.push(self.target_anchor);
        anchors
    }

    /// What a press at the canvas position `world_pos` takes hold of on this
    /// curve, and at which anchor; `near` tells whether a canvas position is
    /// within reach of the pointer.
    pub fn grip_at<F: Fn(Pos2) -> bool>(&self, world_pos: Pos2, near: &F) -> (grip: (
        DragType,
        Option<usize>,
    ))
        requires
            forall|p: Pos2| near.requires((p,)),
        ensures
            is_grip(
                judge_of(near),
                *self,
                world_pos,
                (
                    grip.0,
                    match grip.1 {
                        Some(i) => Some(i as int),
                        None => None,
                    },
                ),
            ),
    {
        let anchors = self.full_anchor_list();
        let n = anchors.len();
        let mut ins: Vec<Pos2> = Vec::new();
        let mut outs: Vec<Pos2> = Vec::new();
        let mut at: Vec<Pos2> = Vec::new();
        let mut i: usize = 0;
        while i < n
            invariant
                i <= n,
                n == anchors.len(),
                ins@ == handles_in(anchors@).take(i as int),
                outs@ == handles_out(anchors@).take(i as int),
                at@ == positions(anchors@).take(i as int),
            decreases n - i,
        {
            ins.push(anchors[i].handle_in_canvas_pos);
            outs.push(anchors[i].handle_out_canvas_pos);
            at.push(anchors[i].canvas_pos);
            i += 1;
        }
        proof {
            assert(ins@ =~= handles_in(anchors@));
            assert(outs@ =~= handles_out(anchors@));
            assert(at@ =~= positions(anchors@));
        }
        if let Some(i) = find_near(&ins, 1, n, near) {
            return (DragType::HandleIn, Some(i));
        }
        if let Some(i) = find_near(&outs, 0, n - 1, near) {
            return (DragType::HandleOut, Some(i));
        }
        if let Some(i) = find_near(&at, 1, n - 1, near) {
            return (DragType::Anchor, Some(i));
        }
        let path = self.path_points(PATH_SAMPLES);
        proof {
            assert(path@.len() > 0);
        }
        let bounding_rect = bounding_of_points(&path);
        if rect_contains(&bounding_rect, world_pos) {
            if let Some(k) = find_near(&path, 0, path.len(), near) {
                proof {
                    assert(is_first_near_at(judge_of(near), path@, k as int));
                }
                return (DragType::MoveBezier, None);
            }
        }
        (DragType::NoDrag, None)
    }
}

/// A curved edge while the user works on it: the curve, what is being
/// dragged, and at which anchor.
#[derive(Clone, Debug)]
pub struct BezierWidget {
    pub edge: BezierEdge,
    pub dragging: DragType,
    pub dragging_anchor_index: Option<usize>,
}

/// What one frame brings to a curved edge: how far the pointer moved on the
/// screen, whether the button was released, whether the pointer is over the
/// edge, whether a drag began, and where the pointer is on the canvas.
#[derive(Debug)]
pub struct BezierInput {
    pub pointer_delta: Vec2,
    pub primary_released: bool,
    pub hovered: bool,
    pub drag_started: bool,
    pub world_pos: Pos2,
}

impl BezierWidget {
    pub fn new(edge: BezierEdge) -> (widget: Self)
        ensures
            widget.edge == edge,
            widget.dragging == DragType::NoDrag,
            widget.dragging_anchor_index is None,
    {
        BezierWidget { edge, dragging: DragType::NoDrag, dragging_anchor_index: None }
    }

    /// Whether a drag of one anchor or handle is under way.
    pub open spec fn holds_point(self) -> bool {
        (self.dragging == DragType::Anchor || self.dragging == DragType::HandleIn
            || self.dragging == DragType::HandleOut) && self.dragging_anchor_index is Some
    }

    /// Decides what a press at the canvas position `world_pos` takes hold
    /// of, and notes the anchor when it is an anchor or a handle. What is
    /// within reach is judged in the view of `canvas_state`.
    pub fn hit_test(&mut self, world_pos: Pos2, canvas_state: &CanvasState) -> (drag_type: DragType)
        ensures
            exists|at: Option<int>|
                {
                    &&& #[trigger] is_grip(
                        reach_judge(canvas_state.transform, world_pos),
                        old(self).edge,
                        world_pos,
                        (drag_type, at),
                    )
                    &&& final(self).dragging_anchor_index == (match at {
                        Some(i) => Some(i as usize),
                        None => old(self).dragging_anchor_index,
                    })
                },
            final(self).edge == old(self).edge,
            final(self).dragging == old(self).dragging,
    {
        let transform = canvas_state.transform;
        let near = |p: Pos2| -> (answer: bool)
            ensures
                reach_judge(transform, world_pos)(p, answer),
            { within_reach(&transform, world_pos, p) };
        let (drag_type, at) = self.edge.grip_at(world_pos, &near);
        if let Some(i) = at {
            self.dragging_anchor_index = Some(i);
        }
        proof {
            let found: Option<int> = match at {
                Some(i) => Some(i as int),
                None => None,
            };
            lemma_grip_by_wider_judge(
                judge_of(&near),
                reach_judge(transform, world_pos),
                old(self).edge,
                world_pos,
                (drag_type, found),
            );
        }
        drag_type
    }

    /// One frame of work on the curve. A drag under way goes on by the
    /// pointer's movement, brought to canvas scale, and ends when the button
    /// is released; nothing else happens in such a frame. Otherwise, with the
    /// pointer over the edge, a drag that begins takes hold of what
    /// `hit_test` finds.
    pub fn apply_actions(&mut self, canvas_state: &CanvasState, input: &BezierInput)
        ensures
            final(self).edge.control_anchors@.len() == old(self).edge.control_anchors@.len(),
            old(self).holds_point() ==> {
                let index = old(self).dragging_anchor_index->0;
                let delta = unscaled(canvas_state.transform, input.pointer_delta);
                &&& index < old(self).edge.anchor_count() ==> final(self).edge.full_anchors()
                    == old(self).edge.full_anchors().update(
                    index as int,
                    part_dragged(
                        old(self).edge.full_anchors()[index as int],
                        old(self).dragging,
                        delta,
                    ),
                )
                &&& index >= old(self).edge.anchor_count() ==> final(self).edge == old(self).edge
                &&& final(self).dragging == (if input.primary_released {
                    DragType::NoDrag
                } else {
                    old(self).dragging
                })
                &&& final(self).dragging_anchor_index == (if input.primary_released {
                    None
                } else {
                    old(self).dragging_anchor_index
                })
            },
            !old(self).holds_point() && old(self).dragging == DragType::MoveBezier ==> {
                let delta = unscaled(canvas_state.transform, input.pointer_delta);
                &&& final(self).edge.full_anchors() == old(self).edge.full_anchors().map_values(
                    |a: BezierAnchor| anchor_shifted(a, delta),
                )
                &&& final(self).dragging == (if input.primary_released {
                    DragType::NoDrag
                } else {
                    DragType::MoveBezier
                })
                &&& final(self).dragging_anchor_index == old(self).dragging_anchor_index
            },
            !old(self).holds_point() && old(self).dragging != DragType::MoveBezier
                && !input.hovered ==> *final(self) == *old(self),
            !old(self).holds_point() && old(self).dragging != DragType::MoveBezier
                && input.hovered ==> exists|found: (DragType, Option<int>)|
                {
                    &&& #[trigger] is_grip(
                        reach_judge(canvas_state.transform, input.world_pos),
                        old(self).edge,
                        input.world_pos,
                        found,
                    )
                    &&& final(self).edge == old(self).edge
                    &&& final(self).dragging == (if input.drag_started && found.0
                        != DragType::NoDrag {
                        found.0
                    } else {
                        old(self).dragging
                    })
                    &&& final(self).dragging_anchor_index == (match found.1 {
                        Some(i) => Some(i as usize),
                        None => old(self).dragging_anchor_index,
                    })
                },
    {
        let delta = canvas_state.to_canvas_delta(input.pointer_delta);
        let held = matches!(
            self.dragging,
            DragType::Anchor | DragType::HandleIn | DragType::HandleOut
        );
        if held {
            if let Some(index) = self.dragging_anchor_index {
                self.edge.drag_point(index, self.dragging, delta);
                if input.primary_released {
                    self.dragging = DragType::NoDrag;
                    self.dragging_anchor_index = None;
                }
                return ;
            }
        }
        if matches!(self.dragging, DragType::MoveBezier) {
            self.edge.drag_all(delta);
            if input.primary_released {
                self.dragging = DragType::NoDrag;
            }
            return ;
        }
        if input.hovered {
            let drag_type = self.hit_test(input.world_pos, canvas_state);
            if input.drag_started && !matches!(drag_type, DragType::NoDrag) {
                self.dragging = drag_type;
            }
        }
    }
}

} // verus!
