//! What a gesture can aim at.
use vstd::prelude::*;
use crate::bezier::DragType;

verus! {

/// What the pointer is over.
#[derive(Debug, Clone, Copy)]
pub enum InputTarget {
    /// The empty canvas.
    Canvas,
    /// The node in this slot.
    Node(u32),
    /// The edge in this slot.
    Edge(u32),
    /// A part of an anchor of the curved edge in slot `edge_index`: the
    /// anchor at place `point_index` of its anchors, or one of its handles.
    ControlPoint { edge_index: u32, point_index: usize, drag_type: DragType },
    /// Something that is not part of the diagram.
    UI,
}

} // verus!
