//! Nodes.
use vstd::prelude::*;
use egui::Pos2;

verus! {

/// A node of the diagram: its identity, where it stands on the canvas, and
/// what the user wrote in it.
#[derive(Clone, Debug)]
pub struct Node {
    pub id: u64,
    pub position: Pos2,
    pub text: String,
    pub note: String,
}

} // verus!
