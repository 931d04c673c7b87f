//! The graph is kept in a `petgraph` `StableGraph`. What it holds is named
//! here by two maps, and each method the editor calls is given a contract
//! over them. The contracts are taken on trust: they say what the source of
//! `petgraph` shows the method to do.
//!
//! A node or an edge is known by the number of its slot. A slot keeps its
//! number for as long as it is in use; the slot of a removed item may be
//! given to a later one.
use vstd::prelude::*;
use petgraph::stable_graph::StableGraph;
use petgraph::visit::EdgeRef;
use petgraph::visit::IntoEdgeReferences;
use crate::graph::edge::Edge;
use crate::graph::node::Node;

verus! {

/// The marker of graphs with directed edges: `petgraph::Directed`.
#[verifier::external_type_specification]
#[verifier::external_body]
pub struct ExDirected(petgraph::Directed);

/// The graph: `petgraph::stable_graph::StableGraph`.
#[verifier::external_type_specification]
#[verifier::external_body]
#[verifier::reject_recursive_types(N)]
#[verifier::reject_recursive_types(E)]
#[verifier::reject_recursive_types(Ty)]
#[verifier::reject_recursive_types(Ix)]
pub struct ExStableGraph<N, E, Ty, Ix>(StableGraph<N, E, Ty, Ix>);

/// The nodes in the graph: for each slot in use, the node in it.
pub uninterp spec fn store_nodes(g: StableGraph<Node, Edge>) -> Map<u32, Node>;

/// The edges in the graph: for each slot in use, the slot of the node the
/// edge leaves, the slot of the node it enters, and the edge itself.
pub uninterp spec fn store_edges(g: StableGraph<Node, Edge>) -> Map<u32, (u32, u32, Edge)>;

/// The most items of one kind that a graph indexed by `u32` holds.
pub const STORE_LIMIT: u32 = 0xFFFF_FFFF;

/// Any set of slots is finite: there are only so many `u32`.
pub proof fn lemma_slots_finite(slots: Set<u32>)
    ensures
        slots.finite(),
{
    broadcast use vstd::set_lib::full_set_properties;
    vstd::set_lib::lemma_set_subset_finite(Set::<u32>::full(), slots);
}

/// Calls `StableGraph::new`. Trusted: the new graph holds nothing.
#[verifier::external_body]
pub(crate) fn store_new() -> (g: StableGraph<Node, Edge>)
    ensures
        store_nodes(g).dom() =~= Set::empty(),
        store_edges(g).dom() =~= Set::empty(),
{
    StableGraph::new()
}

/// Calls `StableGraph::node_count`. Trusted: the result is the number of
/// node slots in use.
#[verifier::external_body]
pub(crate) fn store_node_count(g: &StableGraph<Node, Edge>) -> (count: usize)
    ensures
        count == store_nodes(*g).dom().len(),
{
    g.node_count()
}

/// Calls `StableGraph::edge_count`. Trusted: the result is the number of
/// edge slots in use.
#[verifier::external_body]
pub(crate) fn store_edge_count(g: &StableGraph<Node, Edge>) -> (count: usize)
    ensures
        count == store_edges(*g).dom().len(),
{
    g.edge_count()
}

/// Calls `StableGraph::add_node`, which panics only when every slot that a
/// `u32` can number is in use. Trusted: the node goes into a slot that was
/// free, which is returned; nothing else changes.
#[verifier::external_body]
pub(crate) fn store_add_node(g: &mut StableGraph<Node, Edge>, weight: Node) -> (a: u32)
    requires
        store_nodes(*old(g)).dom().len() < STORE_LIMIT,
    ensures
        !store_nodes(*old(g)).contains_key(a),
        store_nodes(*final(g)) == store_nodes(*old(g)).insert(a, weight),
        store_edges(*final(g)) == store_edges(*old(g)),
{
    g.add_node(weight).index() as u32
}

/// Calls `StableGraph::remove_node`. Trusted: if slot `a` is in use, the node
/// leaves it and is returned, and with it leave the edges that leave or enter
/// the node; otherwise nothing changes and nothing is returned.
#[verifier::external_body]
pub(crate) fn store_remove_node(g: &mut StableGraph<Node, Edge>, a: u32) -> (removed: Option<Node>)
    ensures
        removed == (if store_nodes(*old(g)).contains_key(a) {
            Some(store_nodes(*old(g))[a])
        } else {
            None
        }),
        store_nodes(*final(g)) == store_nodes(*old(g)).remove(a),
        removed is Some ==> store_edges(*final(g)) == edges_off(store_edges(*old(g)), a),
        removed is None ==> store_edges(*final(g)) == store_edges(*old(g)),
{
    g.remove_node(a.into())
}

/// The edges of `edges` that neither leave nor enter the node in slot `a`.
pub open spec fn edges_off(edges: Map<u32, (u32, u32, Edge)>, a: u32) -> Map<u32, (u32, u32, Edge)> {
    edges.restrict(Set::new(|e: u32| edges.contains_key(e) && edges[e].0 != a && edges[e].1 != a))
}

/// Calls `StableGraph::node_weight`. Trusted: the result is the node in slot
/// `a`, if the slot is in use.
#[verifier::external_body]
pub(crate) fn store_node(g: &StableGraph<Node, Edge>, a: u32) -> (node: Option<&Node>)
    ensures
        node == (if store_nodes(*g).contains_key(a) {
            Some(&store_nodes(*g)[a])
        } else {
            None
        }),
{
    g.node_weight(a.into())
}

/// Calls `StableGraph::node_weight_mut`. Trusted: the result borrows the node
/// in slot `a`, if the slot is in use; what the borrower leaves there is the
/// node in that slot afterwards, and nothing else changes.
#[verifier::external_body]
pub(crate) fn store_node_mut(g: &mut StableGraph<Node, Edge>, a: u32) -> (node: Option<&mut Node>)
    ensures
        match node {
            Some(n) => store_nodes(*old(g)).contains_key(a) && *n == store_nodes(*old(g))[a]
                && store_nodes(*final(g)) == store_nodes(*old(g)).insert(a, *final(n))
                && store_edges(*final(g)) == store_edges(*old(g)),
            None => !store_nodes(*old(g)).contains_key(a) && store_nodes(*final(g))
                == store_nodes(*old(g)) && store_edges(*final(g)) == store_edges(*old(g)),
        },
{
    g.node_weight_mut(a.into())
}

/// Calls `StableGraph::add_edge`, which panics when an end is no node of the
/// graph or when every slot that a `u32` can number is in use. Trusted: the
/// edge goes from `a` to `b` into a slot that was free, which is returned;
/// nothing else changes.
#[verifier::external_body]
pub(crate) fn store_add_edge(g: &mut StableGraph<Node, Edge>, a: u32, b: u32, weight: Edge) -> (e: u32)
    requires
        store_nodes(*old(g)).contains_key(a),
        store_nodes(*old(g)).contains_key(b),
        store_edges(*old(g)).dom().len() < STORE_LIMIT,
    ensures
        !store_edges(*old(g)).contains_key(e),
        store_edges(*final(g)) == store_edges(*old(g)).insert(e, (a, b, weight)),
        store_nodes(*final(g)) == store_nodes(*old(g)),
{
    g.add_edge(a.into(), b.into(), weight).index() as u32
}

/// Calls `StableGraph::remove_edge`. Trusted: if slot `e` is in use, the edge
/// leaves it and is returned; nothing else changes.
#[verifier::external_body]
pub(crate) fn store_remove_edge(g: &mut StableGraph<Node, Edge>, e: u32) -> (removed: Option<Edge>)
    ensures
        removed == (if store_edges(*old(g)).contains_key(e) {
            Some(store_edges(*old(g))[e].2)
        } else {
            None
        }),
        store_edges(*final(g)) == store_edges(*old(g)).remove(e),
        store_nodes(*final(g)) == store_nodes(*old(g)),
{
    g.remove_edge(e.into())
}

/// Calls `StableGraph::edge_weight`. Trusted: the result is the edge in slot
/// `e`, if the slot is in use.
#[verifier::external_body]
pub(crate) fn store_edge(g: &StableGraph<Node, Edge>, e: u32) -> (edge: Option<&Edge>)
    ensures
        edge == (if store_edges(*g).contains_key(e) {
            Some(&store_edges(*g)[e].2)
        } else {
            None
        }),
{
    g.edge_weight(e.into())
}

/// Calls `StableGraph::edge_weight_mut`. Trusted: the result borrows the edge
/// in slot `e`, if the slot is in use; what the borrower leaves there is the
/// edge in that slot afterwards, between the same two nodes, and nothing else
/// changes.
#[verifier::external_body]
pub(crate) fn store_edge_mut(g: &mut StableGraph<Node, Edge>, e: u32) -> (edge: Option<&mut Edge>)
    ensures
        match edge {
            Some(w) => store_edges(*old(g)).contains_key(e) && *w == store_edges(*old(g))[e].2
                && store_edges(*final(g)) == store_edges(*old(g)).insert(
                e,
                (store_edges(*old(g))[e].0, store_edges(*old(g))[e].1, *final(w)),
            ) && store_nodes(*final(g)) == store_nodes(*old(g)),
            None => !store_edges(*old(g)).contains_key(e) && store_edges(*final(g))
                == store_edges(*old(g)) && store_nodes(*final(g)) == store_nodes(*old(g)),
        },
{
    g.edge_weight_mut(e.into())
}

/// Calls `StableGraph::edge_endpoints`. Trusted: the result is the pair of
/// slots that the edge in slot `e` leaves and enters, if the slot is in use.
#[verifier::external_body]
pub(crate) fn store_edge_endpoints(g: &StableGraph<Node, Edge>, e: u32) -> (ends: Option<(u32, u32)>)
    ensures
        ends == (if store_edges(*g).contains_key(e) {
            Some((store_edges(*g)[e].0, store_edges(*g)[e].1))
        } else {
            None
        }),
{
    match g.edge_endpoints(e.into()) {
        Some((a, b)) => Some((a.index() as u32, b.index() as u32)),
        None => None,
    }
}

/// Whether some edge of `edges` goes from `a` to `b`.
pub open spec fn has_edge_from_to(edges: Map<u32, (u32, u32, Edge)>, a: u32, b: u32) -> bool {
    exists|e: u32| #[trigger] edges.contains_key(e) && edges[e].0 == a && edges[e].1 == b
}

/// Calls `StableGraph::contains_edge`. Trusted: the result says whether some
/// edge goes from `a` to `b`.
#[verifier::external_body]
pub(crate) fn store_contains_edge(g: &StableGraph<Node, Edge>, a: u32, b: u32) -> (found: bool)
    ensures
        found == has_edge_from_to(store_edges(*g), a, b),
{
    g.contains_edge(a.into(), b.into())
}

/// Calls `StableGraph::node_indices` and collects what it yields. Trusted:
/// the result lists the slots in use, each once, in rising order.
#[verifier::external_body]
pub(crate) fn store_node_indices(g: &StableGraph<Node, Edge>) -> (slots: Vec<u32>)
    ensures
        forall|i: int, j: int| 0 <= i < j < slots.len() ==> slots[i] < slots[j],
        forall|a: u32| slots@.contains(a) <==> store_nodes(*g).contains_key(a),
{
    g.node_indices().map(|a| a.index() as u32).collect()
}

/// Calls `StableGraph::edge_references` and collects, for each edge it
/// yields, the slot of the edge and the slots of its two ends. Trusted: the
/// result lists the edge slots in use, each once, in rising order, each with
/// the ends of the edge in it.
#[verifier::external_body]
pub(crate) fn store_edge_list(g: &StableGraph<Node, Edge>) -> (list: Vec<(u32, u32, u32)>)
    ensures
        forall|i: int, j: int| 0 <= i < j < list.len() ==> list[i].0 < list[j].0,
        forall|i: int|
            0 <= i < list.len() ==> store_edges(*g).contains_key(#[trigger] list[i].0)
                && store_edges(*g)[list[i].0].0 == list[i].1 && store_edges(*g)[list[i].0].1
                == list[i].2,
        forall|e: u32|
            store_edges(*g).contains_key(e) ==> exists|i: int|
                0 <= i < list.len() && #[trigger] list[i].0 == e,
{
    g.edge_references().map(
        |r| (r.id().index() as u32, r.source().index() as u32, r.target().index() as u32),
    ).collect()
}

} // verus!
