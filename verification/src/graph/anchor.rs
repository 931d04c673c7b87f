//! The anchors that the path of an edge runs through.
use vstd::prelude::*;
use egui::Pos2;
use crate::plane::{pos_add, pos_delta, pos_diff, pos_plus, vec2_from_ints, vec2_of};

verus! {

/// How far, in canvas units, the handles of a fresh anchor stand from it.
pub const DEFAULT_HANDLE_REACH: i16 = 30;

/// The end of a straight edge.
#[derive(Clone, Copy, Debug)]
pub struct LineAnchor {
    pub canvas_pos: Pos2,
}

impl LineAnchor {
    pub fn new(canvas_pos: Pos2) -> (anchor: Self)
        ensures
            anchor.canvas_pos == canvas_pos,
    {
        Self { canvas_pos }
    }
}

/// A point of a curved edge with the two handles that bend the curve where it
/// arrives at the point and where it leaves.
#[derive(Clone, Copy, Debug)]
pub struct BezierAnchor {
    pub canvas_pos: Pos2,
    pub handle_in_canvas_pos: Pos2,
    pub handle_out_canvas_pos: Pos2,
    pub is_smooth: bool,
}

/// An anchor of either kind of edge.
#[derive(Clone, Copy, Debug)]
pub enum Anchor {
    Line(LineAnchor),
    Bezier(BezierAnchor),
}

/// The position opposite `handle` through `anchor`: the anchor moved by the
/// offset that leads from `handle` to the anchor.
pub open spec fn mirrored(anchor: Pos2, handle: Pos2) -> Pos2 {
    pos_plus(anchor, pos_diff(anchor, handle))
}

/// Builds the position of `mirrored`.
pub fn mirror(anchor: Pos2, handle: Pos2) -> (opposite: Pos2)
    ensures
        opposite == mirrored(anchor, handle),
{
    pos_add(anchor, pos_delta(anchor, handle))
}

impl BezierAnchor {
    /// The handles are reflections of each other through the anchor: one of
    /// them is the position opposite the other.
    pub open spec fn is_mirrored(self) -> bool {
        self.handle_out_canvas_pos == mirrored(self.canvas_pos, self.handle_in_canvas_pos)
            || self.handle_in_canvas_pos == mirrored(self.canvas_pos, self.handle_out_canvas_pos)
    }

    /// A smooth anchor has its handles mirrored; a sharp one is free.
    pub open spec fn wf(self) -> bool {
        self.is_smooth ==> self.is_mirrored()
    }

    /// The smooth anchor at `canvas_pos` with level handles: the outbound
    /// handle one reach to the right, the inbound handle opposite.
    pub open spec fn smooth_at(canvas_pos: Pos2) -> BezierAnchor {
        let handle_out = pos_plus(canvas_pos, vec2_of(DEFAULT_HANDLE_REACH as int, 0));
        BezierAnchor {
            canvas_pos,
            handle_in_canvas_pos: mirrored(canvas_pos, handle_out),
            handle_out_canvas_pos: handle_out,
            is_smooth: true,
        }
    }

    /// A smooth anchor at `canvas_pos` with level handles, one reach to
    /// either side.
    pub fn new_smooth(canvas_pos: Pos2) -> (anchor: Self)
        ensures
            anchor == Self::smooth_at(canvas_pos),
            anchor.wf(),
    {
        let handle_out = pos_add(canvas_pos, vec2_from_ints(DEFAULT_HANDLE_REACH, 0));
        Self {
            canvas_pos,
            handle_in_canvas_pos: mirror(canvas_pos, handle_out),
            handle_out_canvas_pos: handle_out,
            is_smooth: true,
        }
    }

    /// A sharp anchor at `canvas_pos`: the same level handles, free to move
    /// apart.
    pub fn new_sharp(canvas_pos: Pos2) -> (anchor: Self)
        ensures
            anchor.canvas_pos == canvas_pos,
            anchor.handle_in_canvas_pos == pos_plus(
                canvas_pos,
                vec2_of(-(DEFAULT_HANDLE_REACH as int), 0),
            ),
            anchor.handle_out_canvas_pos == pos_plus(
                canvas_pos,
                vec2_of(DEFAULT_HANDLE_REACH as int, 0),
            ),
            !anchor.is_smooth,
    {
        let handle_offset_in = vec2_from_ints(-DEFAULT_HANDLE_REACH, 0);
        let handle_offset_out = vec2_from_ints(DEFAULT_HANDLE_REACH, 0);
        Self {
            canvas_pos,
            handle_in_canvas_pos: pos_add(canvas_pos, handle_offset_in),
            handle_out_canvas_pos: pos_add(canvas_pos, handle_offset_out),
            is_smooth: false,
        }
    }

    /// The same anchor with both handles replaced.
    pub fn with_handles(self, handle_in: Pos2, handle_out: Pos2) -> (anchor: Self)
        ensures
            anchor.canvas_pos == self.canvas_pos,
            anchor.handle_in_canvas_pos == handle_in,
            anchor.handle_out_canvas_pos == handle_out,
            anchor.is_smooth == self.is_smooth,
    {
        Self {
            canvas_pos: self.canvas_pos,
            handle_in_canvas_pos: handle_in,
            handle_out_canvas_pos: handle_out,
            is_smooth: self.is_smooth,
        }
    }

    /// Makes the anchor smooth and mirrors the outbound handle.
    pub fn set_smooth(&mut self)
        ensures
            final(self).is_smooth,
            final(self).canvas_pos == old(self).canvas_pos,
            final(self).handle_in_canvas_pos == old(self).handle_in_canvas_pos,
            final(self).handle_out_canvas_pos == mirrored(
                old(self).canvas_pos,
                old(self).handle_in_canvas_pos,
            ),
            final(self).wf(),
    {
        self.is_smooth = true;
        self.enforce_smooth();
    }

    /// Makes the anchor sharp; the handles stay where they are.
    pub fn set_sharp(&mut self)
        ensures
            !final(self).is_smooth,
            final(self).canvas_pos == old(self).canvas_pos,
            final(self).handle_in_canvas_pos == old(self).handle_in_canvas_pos,
            final(self).handle_out_canvas_pos == old(self).handle_out_canvas_pos,
    {
        self.is_smooth = false;
    }

    /// Puts the outbound handle opposite the inbound one: as far from the
    /// anchor, on the other side.
    pub fn enforce_smooth(&mut self)
        ensures
            final(self).handle_out_canvas_pos == mirrored(
                old(self).canvas_pos,
                old(self).handle_in_canvas_pos,
            ),
            final(self).is_mirrored(),
            final(self).canvas_pos == old(self).canvas_pos,
            final(self).handle_in_canvas_pos == old(self).handle_in_canvas_pos,
            final(self).is_smooth == old(self).is_smooth,
    {
        self.handle_out_canvas_pos = mirror(self.canvas_pos, self.handle_in_canvas_pos);
    }
}

} // verus!
