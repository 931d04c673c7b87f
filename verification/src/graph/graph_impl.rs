//! The graph: nodes, edges, the selection, and the node that is edited.
//!
//! Nodes and edges live in slots that are numbered by `u32`. A slot keeps
//! its number while it is in use, so removing one node leaves every other
//! node where it was; an edge always runs between two nodes that are there.
use vstd::prelude::*;
use egui::Vec2;
use petgraph::stable_graph::StableGraph;
use crate::bezier::{part_dragged, DragType};
use crate::plane::{pos_add, pos_plus};
use crate::canvas::{next_id, CanvasState};
use crate::graph::anchor::BezierAnchor;
use crate::graph::edge::{BezierEdge, Edge, EdgeType, LineEdge};
use crate::graph::node::Node;
use crate::graph::selection::{list_contains, merge_into, merged, GraphSelection, lemma_merged};
use crate::graph::store::{
    edges_off, has_edge_from_to, lemma_slots_finite, store_add_edge, store_add_node,
    store_contains_edge, store_edge, store_edge_count, store_edge_endpoints, store_edge_list,
    store_edge_mut, store_edges, store_new, store_node, store_node_count, store_node_indices,
    store_node_mut, store_nodes, store_remove_edge, store_remove_node, STORE_LIMIT,
};

verus! {

/// The diagram: its nodes and edges, the style new paths are drawn in, what
/// is selected, and the node whose text is being edited, if any.
#[derive(Debug)]
pub struct Graph {
    pub edge_type: EdgeType,
    pub graph: StableGraph<Node, Edge>,
    pub selected: GraphSelection,
    pub editing_node: Option<u32>,
}

/// Whether an edge between `source` and `target` joins `a` and `b`, in
/// either direction.
pub open spec fn joins(source: u32, target: u32, a: u32, b: u32) -> bool {
    (source == a && target == b) || (source == b && target == a)
}

impl Default for Graph {
    fn default() -> (graph: Self)
        ensures
            graph.nodes().dom() =~= Set::empty(),
            graph.edges().dom() =~= Set::empty(),
            graph.edge_type == EdgeType::Line,
            graph.selected is Empty,
            graph.editing_node is None,
            graph.wf(),
    {
        Self {
            edge_type: EdgeType::Line,
            graph: store_new(),
            selected: GraphSelection::Empty,
            editing_node: None,
        }
    }
}

impl Graph {
    /// The nodes, by slot.
    pub open spec fn nodes(&self) -> Map<u32, Node> {
        store_nodes(self.graph)
    }

    /// The edges, by slot: for each, the slot of the node it leaves, the slot
    /// of the node it enters, and the edge.
    pub open spec fn edges(&self) -> Map<u32, (u32, u32, Edge)> {
        store_edges(self.graph)
    }

    /// The slots of the edges that join `a` and `b`, in either direction.
    pub open spec fn edges_between(&self, a: u32, b: u32) -> Set<u32> {
        Set::new(
            |e: u32|
                self.edges().contains_key(e) && joins(self.edges()[e].0, self.edges()[e].1, a, b),
        )
    }

    /// The slots of the edges that join `a` and `b`, in either direction,
    /// and lie below the slot `below`, if one is given.
    pub open spec fn edges_between_below(&self, a: u32, b: u32, below: Option<u32>) -> Set<u32> {
        Set::new(
            |e: u32|
                self.edges().contains_key(e) && joins(self.edges()[e].0, self.edges()[e].1, a, b)
                    && (below matches Some(limit) ==> e < limit),
        )
    }

    /// Every edge runs between two nodes of the graph, records the ends it
    /// has, and nothing is selected twice.
    pub open spec fn wf(&self) -> bool {
        &&& forall|e: u32| #[trigger]
            self.edges().contains_key(e) ==> self.nodes().contains_key(self.edges()[e].0)
                && self.nodes().contains_key(self.edges()[e].1)
        &&& forall|e: u32| #[trigger]
            self.edges().contains_key(e) ==> self.edges()[e].2.source == self.edges()[e].0
                && self.edges()[e].2.target == self.edges()[e].1
        &&& self.selected.wf()
    }

    /// How many nodes there are.
    pub fn node_count(&self) -> (count: usize)
        ensures
            count == self.nodes().dom().len(),
            self.nodes().dom().finite(),
    {
        proof {
            lemma_slots_finite(self.nodes().dom());
        }
        store_node_count(&self.graph)
    }

    /// How many edges there are.
    pub fn edge_count(&self) -> (count: usize)
        ensures
            count == self.edges().dom().len(),
            self.edges().dom().finite(),
    {
        proof {
            lemma_slots_finite(self.edges().dom());
        }
        store_edge_count(&self.graph)
    }

    /// Puts `node` into a free slot and returns the slot.
    pub fn add_node(&mut self, node: Node) -> (node_index: u32)
        requires
            old(self).nodes().dom().len() < STORE_LIMIT,
        ensures
            !old(self).nodes().contains_key(node_index),
            final(self).nodes() == old(self).nodes().insert(node_index, node),
            final(self).edges() == old(self).edges(),
            final(self).edge_type == old(self).edge_type,
            final(self).selected == old(self).selected,
            final(self).editing_node == old(self).editing_node,
            old(self).wf() ==> final(self).wf(),
    {
        store_add_node(&mut self.graph, node)
    }

    /// Adds `node` and an edge to it from the node in slot `src_node_index`.
    /// The edge takes the next edge id and runs straight from the position
    /// of the one node to that of the other. Returns the slot of the new
    /// node.
    pub fn add_node_with_edge(
        &mut self,
        node: Node,
        src_node_index: u32,
        canvas_state: &mut CanvasState,
    ) -> (dst_node_index: u32)
        requires
            old(self).nodes().contains_key(src_node_index),
            old(self).nodes().dom().len() < STORE_LIMIT,
            old(self).edges().dom().len() < STORE_LIMIT,
        ensures
            !old(self).nodes().contains_key(dst_node_index),
            final(self).nodes() == old(self).nodes().insert(dst_node_index, node),
            exists|e: u32, edge: Edge|
                {
                    &&& !old(self).edges().contains_key(e)
                    &&& final(self).edges() == old(self).edges().insert(
                        e,
                        (src_node_index, dst_node_index, edge),
                    )
                    &&& edge.id == old(canvas_state).global_edge_id
                    &&& edge.source == src_node_index
                    &&& edge.target == dst_node_index
                    &&& edge.text is None
                    &&& edge.bezier_edge.source_anchor == Edge::fresh_anchor(
                        old(self).nodes()[src_node_index].position,
                    )
                    &&& edge.bezier_edge.target_anchor == Edge::fresh_anchor(node.position)
                    &&& edge.bezier_edge.control_anchors@.len() == 0
                    &&& edge.line_edge.source.canvas_pos
                        == old(self).nodes()[src_node_index].position
                    &&& edge.line_edge.target.canvas_pos == node.position
                },
            final(canvas_state).global_edge_id == next_id(old(canvas_state).global_edge_id),
            final(canvas_state).global_node_id == old(canvas_state).global_node_id,
            final(canvas_state).transform == old(canvas_state).transform,
            final(self).edge_type == old(self).edge_type,
            final(self).selected == old(self).selected,
            final(self).editing_node == old(self).editing_node,
            old(self).wf() ==> final(self).wf(),
    {
        let dst_position = node.position;
        let dst_node_index = self.add_node(node);
        let src_position = match self.get_node(src_node_index) {
            Some(src_node) => src_node.position,
            None => vstd::pervasive::unreached(),
        };
        let edge = Edge::new(
            src_node_index,
            dst_node_index,
            src_position,
            dst_position,
            canvas_state,
        );
        self.add_edge(edge);
        dst_node_index
    }

    /// The node in slot `node_index`, if the slot is in use.
    pub fn get_node(&self, node_index: u32) -> (node: Option<&Node>)
        ensures
            node == (if self.nodes().contains_key(node_index) {
                Some(&self.nodes()[node_index])
            } else {
                None
            }),
    {
        store_node(&self.graph, node_index)
    }

    /// The node in slot `node_index`, to be changed in place.
    pub fn get_node_mut(&mut self, node_index: u32) -> (node: Option<&mut Node>)
        ensures
            match node {
                Some(n) => old(self).nodes().contains_key(node_index) && *n
                    == old(self).nodes()[node_index] && final(self).nodes()
                    == old(self).nodes().insert(node_index, *final(n)),
                None => !old(self).nodes().contains_key(node_index) && final(self).nodes()
                    == old(self).nodes(),
            },
            final(self).edges() == old(self).edges(),
            final(self).edge_type == old(self).edge_type,
            final(self).selected == old(self).selected,
            final(self).editing_node == old(self).editing_node,
    {
        store_node_mut(&mut self.graph, node_index)
    }

    /// The slots of the nodes, in rising order.
    pub fn node_indices(&self) -> (slots: Vec<u32>)
        ensures
            forall|i: int, j: int| 0 <= i < j < slots.len() ==> slots[i] < slots[j],
            forall|a: u32| slots@.contains(a) <==> self.nodes().contains_key(a),
    {
        store_node_indices(&self.graph)
    }

    /// The selected nodes, in the order they were selected; none when edges
    /// are selected or nothing is.
    pub fn get_selected_nodes(&self) -> (nodes: Vec<u32>)
        ensures
            nodes@ == self.selected.nodes(),
    {
        match &self.selected {
            GraphSelection::Node(nodes) => nodes.clone(),
            _ => Vec::new(),
        }
    }

    pub fn is_node_selected(&self, node_index: u32) -> (selected: bool)
        ensures
            selected == self.selected.nodes().contains(node_index),
    {
        match &self.selected {
            GraphSelection::Node(nodes) => list_contains(nodes, node_index),
            _ => false,
        }
    }

    /// Adds a node to the selected nodes, unless it is among them. A
    /// selection of edges is dropped for it.
    pub fn select_node(&mut self, node_index: u32)
        ensures
            final(self).selected is Node,
            final(self).selected.nodes() == (if old(self).selected.nodes().contains(node_index) {
                old(self).selected.nodes()
            } else {
                old(self).selected.nodes().push(node_index)
            }),
            final(self).graph == old(self).graph,
            final(self).edge_type == old(self).edge_type,
            final(self).editing_node == old(self).editing_node,
            old(self).wf() ==> final(self).wf(),
    {
        match &mut self.selected {
            GraphSelection::Node(nodes) => {
                if !list_contains(nodes, node_index) {
                    nodes.push(node_index);
                }
            },
            _ => {
                let mut nodes = Vec::new();
                nodes.push(node_index);
                self.selected = GraphSelection::Node(nodes);
            },
        }
    }

    /// Adds nodes to the selected nodes: each that is not among them yet,
    /// once, in the order given. A selection of edges is dropped for them.
    pub fn select_nodes(&mut self, nodes: Vec<u32>)
        ensures
            final(self).selected is Node,
            final(self).selected.nodes() == merged(old(self).selected.nodes(), nodes@),
            final(self).graph == old(self).graph,
            final(self).edge_type == old(self).edge_type,
            final(self).editing_node == old(self).editing_node,
            old(self).wf() ==> final(self).wf(),
    {
        proof {
            if old(self).selected.nodes().no_duplicates() {
                lemma_merged(old(self).selected.nodes(), nodes@);
            }
        }
        match &mut self.selected {
            GraphSelection::Node(selected_nodes) => {
                merge_into(selected_nodes, &nodes);
            },
            _ => {
                let mut selected_nodes = Vec::new();
                merge_into(&mut selected_nodes, &nodes);
                self.selected = GraphSelection::Node(selected_nodes);
            },
        }
    }

    pub fn get_editing_node(&self) -> (node_index: Option<u32>)
        ensures
            node_index == self.editing_node,
    {
        self.editing_node
    }

    pub fn set_editing_node(&mut self, node_index: Option<u32>)
        ensures
            final(self).editing_node == node_index,
            final(self).graph == old(self).graph,
            final(self).edge_type == old(self).edge_type,
            final(self).selected == old(self).selected,
    {
        self.editing_node = node_index;
    }

    /// Removes the node in slot `node_index` with every edge that leaves or
    /// enters it, and ends any editing. Nothing is removed when the slot is
    /// not in use. The selection is left as it is.
    pub fn remove_node(&mut self, node_index: u32)
        ensures
            final(self).nodes() == old(self).nodes().remove(node_index),
            final(self).edges() == (if old(self).nodes().contains_key(node_index) {
                edges_off(old(self).edges(), node_index)
            } else {
                old(self).edges()
            }),
            final(self).editing_node is None,
            final(self).edge_type == old(self).edge_type,
            final(self).selected == old(self).selected,
            old(self).wf() ==> final(self).wf(),
    {
        let _ = store_remove_node(&mut self.graph, node_index);
        self.editing_node = None;
    }
}

impl Graph {
    /// Adds an edge to the selected edges, unless it is among them. A
    /// selection of nodes is dropped for it.
    pub fn select_edge(&mut self, edge_index: u32)
        ensures
            final(self).selected is Edge,
            final(self).selected.edges() == (if old(self).selected.edges().contains(edge_index) {
                old(self).selected.edges()
            } else {
                old(self).selected.edges().push(edge_index)
            }),
            final(self).graph == old(self).graph,
            final(self).edge_type == old(self).edge_type,
            final(self).editing_node == old(self).editing_node,
            old(self).wf() ==> final(self).wf(),
    {
        match &mut self.selected {
            GraphSelection::Edge(edges) => {
                if !list_contains(edges, edge_index) {
                    edges.push(edge_index);
                }
            },
            _ => {
                let mut edges = Vec::new();
                edges.push(edge_index);
                self.selected = GraphSelection::Edge(edges);
            },
        }
    }

    /// Puts `edge` between the nodes it names, into a free slot, and returns
    /// the slot. An edge beside another between the same nodes is accepted.
    pub fn add_edge(&mut self, edge: Edge) -> (edge_index: u32)
        requires
            old(self).nodes().contains_key(edge.source),
            old(self).nodes().contains_key(edge.target),
            old(self).edges().dom().len() < STORE_LIMIT,
        ensures
            !old(self).edges().contains_key(edge_index),
            final(self).edges() == old(self).edges().insert(
                edge_index,
                (edge.source, edge.target, edge),
            ),
            final(self).nodes() == old(self).nodes(),
            final(self).edge_type == old(self).edge_type,
            final(self).selected == old(self).selected,
            final(self).editing_node == old(self).editing_node,
            old(self).wf() ==> final(self).wf(),
    {
        let source = edge.source;
        let target = edge.target;
        store_add_edge(&mut self.graph, source, target, edge)
    }

    /// The edge in slot `edge_index`, if the slot is in use.
    pub fn get_edge(&self, edge_index: u32) -> (edge: Option<&Edge>)
        ensures
            edge == (if self.edges().contains_key(edge_index) {
                Some(&self.edges()[edge_index].2)
            } else {
                None
            }),
    {
        store_edge(&self.graph, edge_index)
    }

    /// The slots of the nodes that the edge in slot `edge_index` leaves and
    /// enters, if the slot is in use.
    pub fn edge_endpoints(&self, edge_index: u32) -> (ends: Option<(u32, u32)>)
        ensures
            ends == (if self.edges().contains_key(edge_index) {
                Some((self.edges()[edge_index].0, self.edges()[edge_index].1))
            } else {
                None
            }),
    {
        store_edge_endpoints(&self.graph, edge_index)
    }

    /// The slots of the edges, in rising order.
    pub fn edge_indices(&self) -> (slots: Vec<u32>)
        ensures
            forall|i: int, j: int| 0 <= i < j < slots.len() ==> slots[i] < slots[j],
            forall|e: u32| slots@.contains(e) <==> self.edges().contains_key(e),
    {
        let list = store_edge_list(&self.graph);
        let mut slots: Vec<u32> = Vec::new();
        let mut i: usize = 0;
        while i < list.len()
            invariant
                i <= list.len(),
                slots.len() == i,
                forall|j: int| 0 <= j < i ==> slots[j] == list[j].0,
            decreases list.len() - i,
        {
            slots.push(list[i].0);
            i += 1;
        }
        proof {
            assert forall|e: u32| slots@.contains(e) <==> self.edges().contains_key(e) by {
                if self.edges().contains_key(e) {
                    let j = choose|j: int| 0 <= j < list.len() && list[j].0 == e;
                    assert(slots[j] == e);
                }
            }
        }
        slots
    }

    /// Removes the edge in slot `edge_index`, if the slot is in use.
    pub fn remove_edge(&mut self, edge_index: u32)
        ensures
            final(self).edges() == old(self).edges().remove(edge_index),
            final(self).nodes() == old(self).nodes(),
            final(self).edge_type == old(self).edge_type,
            final(self).selected == old(self).selected,
            final(self).editing_node == old(self).editing_node,
            old(self).wf() ==> final(self).wf(),
    {
        let _ = store_remove_edge(&mut self.graph, edge_index);
    }

    /// Gives the edge in slot `edge_index` a new curved path.
    pub fn update_bezier_edge(&mut self, edge_index: u32, bezier_edge: BezierEdge)
        requires
            old(self).edges().contains_key(edge_index),
        ensures
            final(self).edges() == old(self).edges().insert(
                edge_index,
                (
                    old(self).edges()[edge_index].0,
                    old(self).edges()[edge_index].1,
                    (Edge { bezier_edge, ..old(self).edges()[edge_index].2 }),
                ),
            ),
            final(self).nodes() == old(self).nodes(),
            final(self).edge_type == old(self).edge_type,
            final(self).selected == old(self).selected,
            final(self).editing_node == old(self).editing_node,
            old(self).wf() ==> final(self).wf(),
    {
        match store_edge_mut(&mut self.graph, edge_index) {
            Some(edge) => {
                edge.bezier_edge = bezier_edge;
            },
            None => {},
        }
    }

    /// Gives the edge in slot `edge_index` a new straight path.
    pub fn update_line_edge(&mut self, edge_index: u32, line_edge: LineEdge)
        requires
            old(self).edges().contains_key(edge_index),
        ensures
            final(self).edges() == old(self).edges().insert(
                edge_index,
                (
                    old(self).edges()[edge_index].0,
                    old(self).edges()[edge_index].1,
                    (Edge { line_edge, ..old(self).edges()[edge_index].2 }),
                ),
            ),
            final(self).nodes() == old(self).nodes(),
            final(self).edge_type == old(self).edge_type,
            final(self).selected == old(self).selected,
            final(self).editing_node == old(self).editing_node,
            old(self).wf() ==> final(self).wf(),
    {
        match store_edge_mut(&mut self.graph, edge_index) {
            Some(edge) => {
                edge.line_edge = line_edge;
            },
            None => {},
        }
    }

    /// Whether some edge goes from the one node to the other, in this
    /// direction.
    pub fn edge_exists(&self, src_node_index: u32, dst_node_index: u32) -> (exists_: bool)
        ensures
            exists_ == has_edge_from_to(self.edges(), src_node_index, dst_node_index),
    {
        store_contains_edge(&self.graph, src_node_index, dst_node_index)
    }

    /// How many edges join the two nodes, in either direction.
    pub fn edge_count_undirected(&self, node1_index: u32, node2_index: u32) -> (count: usize)
        ensures
            count == self.edges_between(node1_index, node2_index).len(),
            self.edges_between(node1_index, node2_index).finite(),
    {
        proof {
            assert(self.edges_between(node1_index, node2_index) =~= self.edges_between_below(
                node1_index,
                node2_index,
                None,
            ));
        }
        self.count_between(node1_index, node2_index, None)
    }

    /// The place of the edge in slot `edge_index` among the edges that join
    /// the two nodes, in either direction: how many of them lie in a lower
    /// slot.
    pub fn edge_rank_undirected(&self, node1_index: u32, node2_index: u32, edge_index: u32) -> (rank:
        usize)
        ensures
            rank == self.edges_between_below(node1_index, node2_index, Some(edge_index)).len(),
            self.edges_between_below(node1_index, node2_index, Some(edge_index)).finite(),
    {
        self.count_between(node1_index, node2_index, Some(edge_index))
    }

    /// Counts the edges that join the two nodes and lie below `below`.
    fn count_between(&self, node1_index: u32, node2_index: u32, below: Option<u32>) -> (count: usize)
        ensures
            count == self.edges_between_below(node1_index, node2_index, below).len(),
            self.edges_between_below(node1_index, node2_index, below).finite(),
    {
        let list = store_edge_list(&self.graph);
        let mut count: usize = 0;
        let mut i: usize = 0;
        let ghost all = self.edges_between_below(node1_index, node2_index, below);
        proof {
            lemma_slots_finite(all);
            assert(all.filter(|e: u32| exists|j: int| 0 <= j < 0 && list[j].0 == e)
                =~= Set::empty());
        }
        while i < list.len()
            invariant
                i <= list.len(),
                count <= i,
                all == self.edges_between_below(node1_index, node2_index, below),
                forall|i: int, j: int| 0 <= i < j < list.len() ==> list[i].0 < list[j].0,
                forall|i: int|
                    0 <= i < list.len() ==> self.edges().contains_key(#[trigger] list[i].0)
                        && self.edges()[list[i].0].0 == list[i].1 && self.edges()[list[i].0].1
                        == list[i].2,
                count == all.filter(|e: u32| exists|j: int| 0 <= j < i && list[j].0 == e).len(),
            decreases list.len() - i,
        {
            let (edge, source, target) = list[i];
            let ghost before = all.filter(|e: u32| exists|j: int| 0 <= j < i && list[j].0 == e);
            let ghost after = all.filter(
                |e: u32| exists|j: int| 0 <= j < i + 1 && list[j].0 == e,
            );
            let counts = ((source == node1_index && target == node2_index) || (source
                == node2_index && target == node1_index)) && match below {
                Some(limit) => edge < limit,
                None => true,
            };
            proof {
                lemma_slots_finite(before);
                assert(!before.contains(edge));
                if counts {
                    assert(after =~= before.insert(edge)) by {
                        assert forall|e: u32| after.contains(e) implies before.insert(
                            edge,
                        ).contains(e) by {}
                        assert forall|e: u32| before.insert(edge).contains(e) implies after.contains(
                            e,
                        ) by {}
                    }
                } else {
                    assert(after =~= before) by {
                        assert forall|e: u32| after.contains(e) implies before.contains(e) by {}
                        assert forall|e: u32| before.contains(e) implies after.contains(e) by {}
                    }
                }
            }
            if counts {
                count += 1;
            }
            i += 1;
        }
        proof {
            let done = all.filter(|e: u32| exists|j: int| 0 <= j < i && list[j].0 == e);
            assert(done =~= all) by {
                assert forall|e: u32| all.contains(e) implies done.contains(e) by {}
            }
        }
        count
    }
}

/// Of two edges that join the same two nodes, the one in the higher slot has
/// the higher place among them.
pub proof fn lemma_rank_rises(graph: Graph, a: u32, b: u32, e1: u32, e2: u32)
    requires
        graph.edges_between(a, b).contains(e1),
        graph.edges_between(a, b).contains(e2),
        e1 < e2,
    ensures
        graph.edges_between_below(a, b, Some(e1)).len() < graph.edges_between_below(
            a,
            b,
            Some(e2),
        ).len(),
        graph.edges_between_below(a, b, Some(e2)).len() < graph.edges_between(a, b).len(),
{
    let low = graph.edges_between_below(a, b, Some(e1));
    let high = graph.edges_between_below(a, b, Some(e2));
    let all = graph.edges_between(a, b);
    lemma_slots_finite(low);
    lemma_slots_finite(high);
    lemma_slots_finite(all);
    assert(low.insert(e1).subset_of(high));
    vstd::set_lib::lemma_len_subset(low.insert(e1), high);
    assert(high.insert(e2).subset_of(all));
    vstd::set_lib::lemma_len_subset(high.insert(e2), all);
}

/// Whether `after` is the edge `before` with one drag step done on the part
/// `part` of the anchor at place `index` of its curve. A place past the last
/// anchor leaves the edge as it is.
pub open spec fn edge_point_dragged(
    before: Edge,
    after: Edge,
    index: usize,
    part: DragType,
    delta: Vec2,
) -> bool {
    &&& after.id == before.id
    &&& after.source == before.source
    &&& after.target == before.target
    &&& after.text == before.text
    &&& after.line_edge == before.line_edge
    &&& after.bezier_edge.control_anchors@.len() == before.bezier_edge.control_anchors@.len()
    &&& index < before.bezier_edge.anchor_count() ==> after.bezier_edge.full_anchors()
        == before.bezier_edge.full_anchors().update(
        index as int,
        part_dragged(before.bezier_edge.full_anchors()[index as int], part, delta),
    )
    &&& index >= before.bezier_edge.anchor_count() ==> after.bezier_edge == before.bezier_edge
}

impl Graph {
    /// Moves the node in slot `node_index` by `delta`, if the slot is in
    /// use.
    pub fn move_node(&mut self, node_index: u32, delta: Vec2)
        ensures
            final(self).nodes() == (if old(self).nodes().contains_key(node_index) {
                old(self).nodes().insert(
                    node_index,
                    (Node {
                        position: pos_plus(old(self).nodes()[node_index].position, delta),
                        ..old(self).nodes()[node_index]
                    }),
                )
            } else {
                old(self).nodes()
            }),
            final(self).edges() == old(self).edges(),
            final(self).edge_type == old(self).edge_type,
            final(self).selected == old(self).selected,
            final(self).editing_node == old(self).editing_node,
            old(self).wf() ==> final(self).wf(),
    {
        match store_node_mut(&mut self.graph, node_index) {
            Some(node) => {
                node.position = pos_add(node.position, delta);
            },
            None => {},
        }
    }

    /// Replaces the text of the node in slot `node_index`, if the slot is in
    /// use.
    pub fn set_node_text(&mut self, node_index: u32, text: String)
        ensures
            final(self).nodes() == (if old(self).nodes().contains_key(node_index) {
                old(self).nodes().insert(
                    node_index,
                    (Node { text, ..old(self).nodes()[node_index] }),
                )
            } else {
                old(self).nodes()
            }),
            final(self).edges() == old(self).edges(),
            final(self).edge_type == old(self).edge_type,
            final(self).selected == old(self).selected,
            final(self).editing_node == old(self).editing_node,
            old(self).wf() ==> final(self).wf(),
    {
        match store_node_mut(&mut self.graph, node_index) {
            Some(node) => {
                node.text = text;
            },
            None => {},
        }
    }

    /// Gives the curve of the edge in slot `edge_index` new ends and leaves
    /// its control anchors, if the slot is in use.
    pub fn set_bezier_ends(
        &mut self,
        edge_index: u32,
        source_anchor: BezierAnchor,
        target_anchor: BezierAnchor,
    )
        ensures
            final(self).nodes() == old(self).nodes(),
            final(self).edge_type == old(self).edge_type,
            final(self).selected == old(self).selected,
            final(self).editing_node == old(self).editing_node,
            old(self).wf() ==> final(self).wf(),
            !old(self).edges().contains_key(edge_index) ==> final(self).edges() == old(
                self,
            ).edges(),
            old(self).edges().contains_key(edge_index) ==> {
                let before = old(self).edges()[edge_index];
                let after = final(self).edges()[edge_index];
                &&& final(self).edges() == old(self).edges().insert(edge_index, after)
                &&& after.0 == before.0
                &&& after.1 == before.1
                &&& after.2.id == before.2.id
                &&& after.2.source == before.2.source
                &&& after.2.target == before.2.target
                &&& after.2.text == before.2.text
                &&& after.2.line_edge == before.2.line_edge
                &&& after.2.bezier_edge.control_anchors == before.2.bezier_edge.control_anchors
                &&& after.2.bezier_edge.source_anchor == source_anchor
                &&& after.2.bezier_edge.target_anchor == target_anchor
            },
    {
        match store_edge_mut(&mut self.graph, edge_index) {
            Some(edge) => {
                edge.bezier_edge.source_anchor = source_anchor;
                edge.bezier_edge.target_anchor = target_anchor;
            },
            None => {},
        }
    }

    /// Does one drag step on the part `part` of the anchor at place
    /// `point_index` of the curve of the edge in slot `edge_index`, if the
    /// slot is in use.
    pub fn drag_control_point(
        &mut self,
        edge_index: u32,
        point_index: usize,
        part: DragType,
        delta: Vec2,
    )
        ensures
            control_point_dragged(
                old(self).edges(),
                final(self).edges(),
                edge_index,
                point_index,
                part,
                delta,
            ),
            final(self).nodes() == old(self).nodes(),
            final(self).edge_type == old(self).edge_type,
            final(self).selected == old(self).selected,
            final(self).editing_node == old(self).editing_node,
            old(self).wf() ==> final(self).wf(),
    {
        match store_edge_mut(&mut self.graph, edge_index) {
            Some(edge) => {
                edge.bezier_edge.drag_point(point_index, part, delta);
            },
            None => {},
        }
    }
}

/// Whether `after` holds the edges of `before` with one drag step done on the
/// curve of the edge in slot `edge_index`; nothing changes when the slot is
/// not in use.
pub open spec fn control_point_dragged(
    before: Map<u32, (u32, u32, Edge)>,
    after: Map<u32, (u32, u32, Edge)>,
    edge_index: u32,
    point_index: usize,
    part: DragType,
    delta: Vec2,
) -> bool {
    if before.contains_key(edge_index) {
        &&& after.contains_key(edge_index)
        &&& after == before.insert(edge_index, after[edge_index])
        &&& after[edge_index].0 == before[edge_index].0
        &&& after[edge_index].1 == before[edge_index].1
        &&& edge_point_dragged(
            before[edge_index].2,
            after[edge_index].2,
            point_index,
            part,
            delta,
        )
    } else {
        after == before
    }
}

impl Graph {
    /// Empties the graph and drops selection and editing. The edge style
    /// stays.
    pub fn reset(&mut self)
        ensures
            final(self).nodes().dom() =~= Set::empty(),
            final(self).edges().dom() =~= Set::empty(),
            final(self).selected is Empty,
            final(self).editing_node is None,
            final(self).edge_type == old(self).edge_type,
            final(self).wf(),
    {
        self.graph = store_new();
        self.selected = GraphSelection::Empty;
        self.editing_node = None;
    }
}

} // verus!
