//! The states of the input state machine.
use vstd::prelude::*;
use egui::Pos2;
use crate::bezier::DragType;

verus! {

/// What the user is in the middle of. Exactly one of these holds at a time.
#[derive(Debug, Clone)]
pub enum InputState {
    /// Nothing: the next gesture may begin.
    Idle,
    /// Moving the view.
    Panning { last_cursor_pos: Pos2 },
    /// Moving nodes: the one that was pressed, or with `is_selection_drag`
    /// every node of `selected_indices`.
    DraggingNode {
        node_index: u32,
        start_pos: Pos2,
        is_selection_drag: bool,
        selected_indices: Vec<u32>,
    },
    /// Writing the text of a node.
    EditingNode { node_index: u32 },
    /// Pulling a new edge out of a node.
    CreatingEdge { source_node: u32, current_cursor_pos: Pos2 },
    /// Moving one anchor of a curved edge, or one of its handles.
    DraggingControlPoint { edge_index: u32, point_index: usize, drag_type: DragType, start_pos: Pos2 },
    /// Spanning a marquee over the canvas.
    Selecting { start_pos: Pos2, current_pos: Pos2, add_to_selection: bool },
}

impl InputState {
    /// Whether a gesture is under way, so that no other may begin.
    pub fn is_busy(&self) -> (busy: bool)
        ensures
            busy == !(*self is Idle),
    {
        !matches!(self, InputState::Idle)
    }

    /// Whether the state follows the pointer as it moves.
    pub fn handles_mouse_motion(&self) -> (follows: bool)
        ensures
            follows == (*self is Panning || *self is DraggingNode || *self is CreatingEdge
                || *self is DraggingControlPoint || *self is Selecting),
    {
        matches!(
            self,
            InputState::Panning { .. } | InputState::DraggingNode { .. }
                | InputState::CreatingEdge { .. } | InputState::DraggingControlPoint { .. }
                | InputState::Selecting { .. }
        )
    }

    /// Whether the state is a drag of something in the diagram.
    pub fn is_dragging(&self) -> (dragging: bool)
        ensures
            dragging == (*self is DraggingNode || *self is DraggingControlPoint
                || *self is Selecting),
    {
        matches!(
            self,
            InputState::DraggingNode { .. } | InputState::DraggingControlPoint { .. }
                | InputState::Selecting { .. }
        )
    }

    /// The nodes that a drag in this state moves, in order.
    pub open spec fn dragged(self) -> Seq<u32> {
        match self {
            InputState::DraggingNode { node_index, is_selection_drag, selected_indices, .. } => {
                if is_selection_drag {
                    selected_indices@
                } else {
                    seq![node_index]
                }
            },
            _ => Seq::empty(),
        }
    }
}

} // verus!
