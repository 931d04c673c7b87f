//! The input state machine.
//!
//! Once per frame the host hands over what the pointer and the keys did
//! since the last frame. `InputStateManager::update` finds what is under the
//! pointer, lets the one rule that applies fire, and applies zoom or scroll.
use vstd::prelude::*;
use egui::emath::TSTransform;
use egui::{Pos2, Rect, Vec2};
use crate::canvas::{identity_transform, next_id, zoomed, CanvasState, unscaled};
use crate::order::{compare, compared, Comparison};
use crate::graph::edge::Edge;
use crate::graph::graph_impl::{control_point_dragged, joins, Graph};
use crate::graph::node::Node;
use crate::graph::render_info::{NodeRenderInfo, RenderInfoCache};
use crate::graph::selection::{lemma_merged, merged, GraphSelection};
use crate::graph::store::{edges_off, lemma_slots_finite, STORE_LIMIT};
use crate::bezier::DragType;
use crate::graph::edge::EdgeType;
use crate::bezier::judge_of;
use crate::hit_test::{
    hit_test_edge, hit_test_node, is_edge_hit, is_top_hit, lemma_edge_hit_by_wider_judge,
    reach_judge, within_reach,
};
use crate::input::button_state::{ButtonState, PointerButton};
use crate::input::events::InputTarget;
use crate::input::input_state::InputState;
use crate::extent::{rect_from_corners, rect_spanning};
use crate::plane::{
    pos_plus, rect_contains, transform_build, transform_scale, ts_scale, rect_has,
    ts_apply, ts_inverse, ts_shifted, vec2_from_ints, vec2_of,
    vec_as_pos, vec_to_pos,
};

verus! {

/// What happened since the last frame, as the host read it.
#[derive(Debug)]
pub struct FrameInput {
    /// Where the pointer hovers, on the screen, if it is over the window.
    pub pointer_pos: Option<Pos2>,
    /// How far the pointer moved, on the screen.
    pub pointer_delta: Vec2,
    /// How far the view was scrolled, on the screen.
    pub scroll_delta: Vec2,
    /// The scaling to zoom by, as a transform that only scales; a scale of
    /// one asks for no zoom.
    pub zoom: TSTransform,
    pub primary_down: bool,
    pub secondary_down: bool,
    pub middle_down: bool,
    pub extra1_down: bool,
    pub extra2_down: bool,
    pub primary_pressed: bool,
    pub secondary_pressed: bool,
    pub primary_released: bool,
    pub secondary_released: bool,
    pub primary_double_clicked: bool,
    pub escape_pressed: bool,
    /// Delete or Backspace was pressed.
    pub delete_pressed: bool,
    /// The key that turns a primary press into a pan is held.
    pub pan_key_down: bool,
    pub pan_key_released: bool,
    /// The modifier that adds to the selection is held.
    pub add_modifier: bool,
    /// The text field lost the focus, or the user confirmed the text.
    pub edit_finished: bool,
}

impl FrameInput {
    /// A frame in which nothing happened, with the pointer at `pointer_pos`.
    pub fn quiet(pointer_pos: Option<Pos2>) -> (input: Self)
        ensures
            input.pointer_pos == pointer_pos,
            input.pointer_delta == vec2_of(0, 0),
            input.scroll_delta == vec2_of(0, 0),
            input.zoom == identity_transform(),
            !input.primary_down && !input.secondary_down && !input.middle_down,
            !input.extra1_down && !input.extra2_down,
            !input.primary_pressed && !input.secondary_pressed,
            !input.primary_released && !input.secondary_released,
            !input.primary_double_clicked && !input.escape_pressed && !input.delete_pressed,
            !input.pan_key_down && !input.pan_key_released && !input.add_modifier,
            !input.edit_finished,
    {
        Self {
            pointer_pos,
            pointer_delta: vec2_from_ints(0, 0),
            scroll_delta: vec2_from_ints(0, 0),
            zoom: transform_build(vec2_from_ints(0, 0), vec2_from_ints(1, 1)),
            primary_down: false,
            secondary_down: false,
            middle_down: false,
            extra1_down: false,
            extra2_down: false,
            primary_pressed: false,
            secondary_pressed: false,
            primary_released: false,
            secondary_released: false,
            primary_double_clicked: false,
            escape_pressed: false,
            delete_pressed: false,
            pan_key_down: false,
            pan_key_released: false,
            add_modifier: false,
            edit_finished: false,
        }
    }
}

/// Whether an offset is one: whether it differs from no offset in either
/// coordinate.
pub open spec fn moved(delta: Vec2) -> bool {
    !compared(delta, vec2_of(0, 0)).same()
}

/// Whether a scaling step asks for a zoom: whether its scale differs from
/// one.
pub open spec fn zooms(step: TSTransform) -> bool {
    compared(ts_scale(step), vec2_of(1, 1)).x != Comparison::Equal
}

/// Tells whether an offset is one.
pub fn is_moved(delta: Vec2) -> (yes: bool)
    ensures
        yes == moved(delta),
{
    !compare(delta, vec2_from_ints(0, 0)).is_same()
}

/// Tells whether a scaling step asks for a zoom.
pub fn is_zoom(step: &TSTransform) -> (yes: bool)
    ensures
        yes == zooms(*step),
{
    !matches!(compare(transform_scale(step), vec2_from_ints(1, 1)).x, Comparison::Equal)
}

/// What the machine remembers of the pointer from frame to frame.
#[derive(Debug)]
pub struct InputContext {
    /// Where the pointer is, on the screen.
    pub current_mouse_pos: Pos2,
    /// Where it was one frame earlier.
    pub prev_mouse_pos: Pos2,
    /// Whether the modifier that adds to the selection is held.
    pub add_modifier: bool,
    /// Which buttons are down.
    pub pressed_buttons: ButtonState,
}

/// The origin of the screen and of the canvas.
pub open spec fn origin() -> Pos2 {
    vec_as_pos(vec2_of(0, 0))
}

impl InputContext {
    pub fn new() -> (context: Self)
        ensures
            context.current_mouse_pos == origin(),
            context.prev_mouse_pos == origin(),
            !context.add_modifier,
            forall|button: PointerButton| !context.pressed_buttons.is_down(button),
    {
        Self {
            current_mouse_pos: vec_to_pos(vec2_from_ints(0, 0)),
            prev_mouse_pos: vec_to_pos(vec2_from_ints(0, 0)),
            add_modifier: false,
            pressed_buttons: ButtonState::new(),
        }
    }

    /// Takes in one frame: the pointer stays where it was when it is not
    /// over the window.
    pub fn update(&mut self, input: &FrameInput)
        ensures
            final(self).prev_mouse_pos == old(self).current_mouse_pos,
            final(self).current_mouse_pos == (match input.pointer_pos {
                Some(pos) => pos,
                None => old(self).current_mouse_pos,
            }),
            final(self).add_modifier == input.add_modifier,
            final(self).pressed_buttons.is_down(PointerButton::Primary) == input.primary_down,
            final(self).pressed_buttons.is_down(PointerButton::Secondary) == input.secondary_down,
            final(self).pressed_buttons.is_down(PointerButton::Middle) == input.middle_down,
            final(self).pressed_buttons.is_down(PointerButton::Extra1) == input.extra1_down,
            final(self).pressed_buttons.is_down(PointerButton::Extra2) == input.extra2_down,
    {
        self.prev_mouse_pos = self.current_mouse_pos;
        if let Some(pos) = input.pointer_pos {
            self.current_mouse_pos = pos;
        }
        self.add_modifier = input.add_modifier;
        self.pressed_buttons.set(PointerButton::Primary, input.primary_down);
        self.pressed_buttons.set(PointerButton::Secondary, input.secondary_down);
        self.pressed_buttons.set(PointerButton::Middle, input.middle_down);
        self.pressed_buttons.set(PointerButton::Extra1, input.extra1_down);
        self.pressed_buttons.set(PointerButton::Extra2, input.extra2_down);
    }

    /// The node under `screen_pos`, if any; see `hit_test`.
    pub fn hit_test_node(
        &self,
        graph: &Graph,
        canvas_state: &CanvasState,
        cache: &RenderInfoCache,
        screen_pos: Pos2,
    ) -> (hit: Option<u32>)
        ensures
            is_top_hit(hit, graph.nodes(), cache@, canvas_state.transform, screen_pos),
    {
        hit_test_node(graph, canvas_state, cache, screen_pos)
    }

    pub fn screen_to_canvas(&self, canvas_state: &CanvasState, screen_pos: Pos2) -> (canvas_pos:
        Pos2)
        ensures
            canvas_pos == ts_apply(ts_inverse(canvas_state.transform), screen_pos),
    {
        canvas_state.to_canvas(screen_pos)
    }

    pub fn canvas_to_screen(&self, canvas_state: &CanvasState, canvas_pos: Pos2) -> (screen_pos:
        Pos2)
        ensures
            screen_pos == ts_apply(canvas_state.transform, canvas_pos),
    {
        canvas_state.to_screen(canvas_pos)
    }
}

/// An item is in a list when it is in all but the last of it or is the last.
pub proof fn lemma_contains_last(ids: Seq<u32>)
    requires
        ids.len() > 0,
    ensures
        forall|a: u32| ids.contains(a) <==> ids.drop_last().contains(a) || a == ids.last(),
{
    let front = ids.drop_last();
    assert forall|a: u32| ids.contains(a) <==> front.contains(a) || a == ids.last() by {
        if ids.contains(a) {
            let i = choose|i: int| 0 <= i < ids.len() && ids[i] == a;
            if i < front.len() {
                assert(front[i] == a);
            }
        }
    }
}

/// The node `node` moved by `delta`.
pub open spec fn node_moved(node: Node, delta: Vec2) -> Node {
    Node { position: pos_plus(node.position, delta), ..node }
}

/// The nodes after each node of `ids`, taken in order, was moved by `delta`.
/// A slot that is not in use is passed over, and so is a slot that stands
/// in the list a second time: each node is moved once.
pub open spec fn nodes_moved(nodes: Map<u32, Node>, ids: Seq<u32>, delta: Vec2) -> Map<u32, Node>
    decreases ids.len(),
{
    if ids.len() == 0 {
        nodes
    } else {
        let before = nodes_moved(nodes, ids.drop_last(), delta);
        if before.contains_key(ids.last()) && !ids.drop_last().contains(ids.last()) {
            before.insert(ids.last(), node_moved(before[ids.last()], delta))
        } else {
            before
        }
    }
}

/// Moving nodes neither adds nor removes one; a node that is not among `ids`
/// stays where it is, and one that is among them is moved by `delta`, once,
/// however often it stands in the list.
pub proof fn lemma_nodes_moved(nodes: Map<u32, Node>, ids: Seq<u32>, delta: Vec2)
    ensures
        nodes_moved(nodes, ids, delta).dom() == nodes.dom(),
        forall|a: u32|
            nodes.contains_key(a) && !ids.contains(a) ==> nodes_moved(nodes, ids, delta)[a]
                == nodes[a],
        forall|a: u32|
            nodes.contains_key(a) && ids.contains(a) ==> nodes_moved(nodes, ids, delta)[a]
                == node_moved(nodes[a], delta),
    decreases ids.len(),
{
    if ids.len() > 0 {
        let front = ids.drop_last();
        let last = ids.last();
        lemma_nodes_moved(nodes, front, delta);
        lemma_contains_last(ids);
        let before = nodes_moved(nodes, front, delta);
        let after = nodes_moved(nodes, ids, delta);
        assert forall|a: u32| nodes.contains_key(a) && ids.contains(a) implies after[a]
            == node_moved(nodes[a], delta) by {}
    }
}

/// Whether the item at place `i` of `items` stands at an earlier place too.
fn occurs_before(items: &Vec<u32>, i: usize) -> (found: bool)
    requires
        i < items.len(),
    ensures
        found == items@.take(i as int).contains(items[i as int]),
{
    let mut j: usize = 0;
    while j < i
        invariant
            j <= i,
            i < items.len(),
            forall|k: int| 0 <= k < j ==> items[k] != items[i as int],
        decreases i - j,
    {
        if items[j] == items[i] {
            assert(items@.take(i as int)[j as int] == items[i as int]);
            return true;
        }
        j += 1;
    }
    false
}

/// The nodes and edges after each node of `ids`, taken in order, was removed
/// with the edges at it. A slot that is not in use is passed over.
pub open spec fn store_without(
    nodes: Map<u32, Node>,
    edges: Map<u32, (u32, u32, Edge)>,
    ids: Seq<u32>,
) -> (Map<u32, Node>, Map<u32, (u32, u32, Edge)>)
    decreases ids.len(),
{
    if ids.len() == 0 {
        (nodes, edges)
    } else {
        let before = store_without(nodes, edges, ids.drop_last());
        if before.0.contains_key(ids.last()) {
            (before.0.remove(ids.last()), edges_off(before.1, ids.last()))
        } else {
            before
        }
    }
}

/// Removing nodes leaves exactly the nodes that are not among `ids`, as they
/// were, and exactly the edges that touch none of the removed nodes.
pub proof fn lemma_store_without(
    nodes: Map<u32, Node>,
    edges: Map<u32, (u32, u32, Edge)>,
    ids: Seq<u32>,
)
    ensures
        forall|a: u32| #[trigger]
            store_without(nodes, edges, ids).0.contains_key(a) <==> nodes.contains_key(a)
                && !ids.contains(a),
        forall|a: u32| #[trigger]
            store_without(nodes, edges, ids).0.contains_key(a) ==> store_without(
                nodes,
                edges,
                ids,
            ).0[a] == nodes[a],
        forall|e: u32| #[trigger]
            store_without(nodes, edges, ids).1.contains_key(e) <==> edges.contains_key(e) && !(
            ids.contains(edges[e].0) && nodes.contains_key(edges[e].0)) && !(ids.contains(
                edges[e].1,
            ) && nodes.contains_key(edges[e].1)),
        forall|e: u32| #[trigger]
            store_without(nodes, edges, ids).1.contains_key(e) ==> store_without(
                nodes,
                edges,
                ids,
            ).1[e] == edges[e],
    decreases ids.len(),
{
    if ids.len() == 0 {
    } else {
        let front = ids.drop_last();
        let last = ids.last();
        lemma_store_without(nodes, edges, front);
        lemma_contains_last(ids);
        let before = store_without(nodes, edges, front);
        let after = store_without(nodes, edges, ids);
        assert forall|a: u32| after.0.contains_key(a) <==> nodes.contains_key(a) && !ids.contains(
            a,
        ) by {}
        assert forall|a: u32| after.0.contains_key(a) implies after.0[a] == nodes[a] by {}
        assert forall|e: u32| after.1.contains_key(e) <==> edges.contains_key(e) && !(
        ids.contains(edges[e].0) && nodes.contains_key(edges[e].0)) && !(ids.contains(edges[e].1)
            && nodes.contains_key(edges[e].1)) by {}
        assert forall|e: u32| after.1.contains_key(e) implies after.1[e] == edges[e] by {}
    }
}

/// The rectangle of a marquee pulled from `start_pos` to `current_pos` on the
/// screen, in canvas space.
pub open spec fn marquee_rect(transform: TSTransform, start_pos: Pos2, current_pos: Pos2) -> Rect {
    rect_spanning(
        ts_apply(ts_inverse(transform), start_pos),
        ts_apply(ts_inverse(transform), current_pos),
    )
}

/// Whether `inside` lists, in rising order and each once, the slots of the
/// nodes whose position lies in `rect`, its border included.
pub open spec fn lists_within(inside: Seq<u32>, nodes: Map<u32, Node>, rect: Rect) -> bool {
    &&& forall|i: int, j: int| 0 <= i < j < inside.len() ==> inside[i] < inside[j]
    &&& forall|a: u32|
        inside.contains(a) <==> nodes.contains_key(a) && rect_has(rect, nodes[a].position)
}

/// The slots of the nodes whose position lies in `rect`, in rising order.
pub fn nodes_within(graph: &Graph, rect: &Rect) -> (inside: Vec<u32>)
    ensures
        lists_within(inside@, graph.nodes(), *rect),
{
    let slots = graph.node_indices();
    let mut inside: Vec<u32> = Vec::new();
    let mut i: usize = 0;
    while i < slots.len()
        invariant
            i <= slots.len(),
            forall|i: int, j: int| 0 <= i < j < slots.len() ==> slots[i] < slots[j],
            forall|a: u32| slots@.contains(a) <==> graph.nodes().contains_key(a),
            forall|k: int, j: int| 0 <= k < j < inside.len() ==> inside[k] < inside[j],
            forall|k: int|
                0 <= k < inside.len() ==> exists|j: int|
                    0 <= j < i && slots[j] == #[trigger] inside[k],
            forall|k: int|
                0 <= k < inside.len() ==> rect_has(
                    *rect,
                    graph.nodes()[#[trigger] inside[k]].position,
                ),
            forall|j: int|
                0 <= j < i && rect_has(*rect, graph.nodes()[#[trigger] slots[j]].position)
                    ==> inside@.contains(slots[j]),
        decreases slots.len() - i,
    {
        let node_index = slots[i];
        proof {
            assert(slots@.contains(node_index));
        }
        let within = match graph.get_node(node_index) {
            Some(node) => rect_contains(rect, node.position),
            None => false,
        };
        if within {
            proof {
                assert forall|k: int| 0 <= k < inside.len() implies inside[k] < node_index by {}
            }
            let ghost before = inside@;
            inside.push(node_index);
            proof {
                assert forall|j: int|
                    0 <= j < i + 1 && rect_has(
                        *rect,
                        graph.nodes()[#[trigger] slots[j]].position,
                    ) implies inside@.contains(slots[j]) by {
                    if j < i {
                        let k = choose|k: int| 0 <= k < before.len() && before[k] == slots[j];
                        assert(inside[k] == slots[j]);
                    } else {
                        assert(inside[inside.len() - 1] == slots[j]);
                    }
                }
                assert forall|k: int| 0 <= k < inside.len() implies exists|j: int|
                    0 <= j < i + 1 && slots[j] == #[trigger] inside[k] by {}
            }
        }
        i += 1;
    }
    proof {
        assert forall|a: u32| inside@.contains(a) <==> graph.nodes().contains_key(a) && rect_has(
            *rect,
            graph.nodes()[a].position,
        ) by {
            if inside@.contains(a) {
                assert(slots@.contains(a));
            }
            if graph.nodes().contains_key(a) && rect_has(*rect, graph.nodes()[a].position) {
                assert(slots@.contains(a));
            }
        }
    }
    inside
}

/// The input state machine: the state it is in, what it remembers of the
/// pointer, and what the pointer was over in the last frame.
#[derive(Debug)]
pub struct InputStateManager {
    pub current_state: InputState,
    pub context: InputContext,
    pub last_target: Option<InputTarget>,
}

/// Whether `node` is as a gesture creates it: numbered `id`, at `position`,
/// with nothing written in it.
pub open spec fn is_blank_node(node: Node, id: u64, position: Pos2) -> bool {
    &&& node.id == id
    &&& node.position == position
    &&& node.text@ == Seq::<char>::empty()
    &&& node.note@ == Seq::<char>::empty()
}

impl InputStateManager {
    /// A machine at rest.
    pub fn new() -> (manager: Self)
        ensures
            manager.current_state is Idle,
            manager.last_target is None,
            manager.context.current_mouse_pos == origin(),
            manager.context.prev_mouse_pos == origin(),
    {
        Self { current_state: InputState::Idle, context: InputContext::new(), last_target: None }
    }

    /// The state the machine is in.
    pub fn get_current_state(&self) -> (state: &InputState)
        ensures
            *state == self.current_state,
    {
        &self.current_state
    }

    /// The marquee that is being pulled, from its start to the pointer, both
    /// on the screen.
    pub fn marquee(&self) -> (corners: Option<(Pos2, Pos2)>)
        ensures
            corners == (match self.current_state {
                InputState::Selecting { start_pos, current_pos, .. } => Some(
                    (start_pos, current_pos),
                ),
                _ => None,
            }),
    {
        match &self.current_state {
            InputState::Selecting { start_pos, current_pos, .. } => Some(
                (*start_pos, *current_pos),
            ),
            _ => None,
        }
    }

    /// The edge that is being pulled out of a node: the slot of the node and
    /// where the pointer is, on the screen.
    pub fn pending_edge(&self) -> (pending: Option<(u32, Pos2)>)
        ensures
            pending == (match self.current_state {
                InputState::CreatingEdge { source_node, current_cursor_pos } => Some(
                    (source_node, current_cursor_pos),
                ),
                _ => None,
            }),
    {
        match &self.current_state {
            InputState::CreatingEdge { source_node, current_cursor_pos } => Some(
                (*source_node, *current_cursor_pos),
            ),
            _ => None,
        }
    }

    /// Puts the machine into `new_state`.
    pub fn transition_to(&mut self, new_state: InputState)
        ensures
            final(self).current_state == new_state,
            final(self).context == old(self).context,
            final(self).last_target == old(self).last_target,
    {
        self.current_state = new_state;
    }

    /// What the pointer is over: a node before anything else; then, where
    /// edges are drawn as curves, a part of a curved edge, or the edge
    /// itself when it is its path that is within reach; then the canvas.
    /// A pointer that is not over the window counts as at the origin of the
    /// screen.
    pub fn determine_target(
        &self,
        graph: &Graph,
        canvas_state: &CanvasState,
        cache: &RenderInfoCache,
        pointer_pos: Option<Pos2>,
    ) -> (target: InputTarget)
        ensures
            is_target(target, *graph, cache@, canvas_state.transform, pointed_at(pointer_pos)),
    {
        let cursor_pos = match pointer_pos {
            Some(pos) => pos,
            None => vec_to_pos(vec2_from_ints(0, 0)),
        };
        if let Some(node_index) = self.context.hit_test_node(
            graph,
            canvas_state,
            cache,
            cursor_pos,
        ) {
            return InputTarget::Node(node_index);
        }
        if !matches!(graph.edge_type, EdgeType::Bezier) {
            return InputTarget::Canvas;
        }
        let world_pos = self.context.screen_to_canvas(canvas_state, cursor_pos);
        let transform = canvas_state.transform;
        let near = |p: Pos2| -> (answer: bool)
            ensures
                reach_judge(transform, world_pos)(p, answer),
            { within_reach(&transform, world_pos, p) };
        let hit = hit_test_edge(graph, world_pos, &near);
        proof {
            lemma_edge_hit_by_wider_judge(
                judge_of(&near),
                reach_judge(transform, world_pos),
                graph.edges(),
                world_pos,
                match hit {
                    Some((e, drag_type, Some(i))) => Some((e, drag_type, Some(i as int))),
                    Some((e, drag_type, None)) => Some((e, drag_type, None)),
                    None => None,
                },
            );
        }
        match hit {
            Some((edge_index, DragType::MoveBezier, _)) => InputTarget::Edge(edge_index),
            Some((edge_index, drag_type, Some(point_index))) => InputTarget::ControlPoint {
                edge_index,
                point_index,
                drag_type,
            },
            Some((edge_index, _, None)) => InputTarget::Edge(edge_index),
            None => InputTarget::Canvas,
        }
    }
}

/// Where the pointer counts as being when the target is looked for: where it
/// hovers, or at the origin of the screen when it is not over the window.
pub open spec fn pointed_at(pointer_pos: Option<Pos2>) -> Pos2 {
    match pointer_pos {
        Some(pos) => pos,
        None => origin(),
    }
}

/// Whether `target` is what `determine_target` finds under the pointer.
pub open spec fn is_target(
    target: InputTarget,
    graph: Graph,
    cache: Map<u32, NodeRenderInfo>,
    transform: TSTransform,
    cursor_pos: Pos2,
) -> bool {
    let world_pos = ts_apply(ts_inverse(transform), cursor_pos);
    let near = reach_judge(transform, world_pos);
    let no_node = is_top_hit(None, graph.nodes(), cache, transform, cursor_pos);
    let curved = graph.edge_type == EdgeType::Bezier;
    match target {
        InputTarget::Node(a) => is_top_hit(Some(a), graph.nodes(), cache, transform, cursor_pos),
        InputTarget::ControlPoint { edge_index, point_index, drag_type } => {
            &&& no_node
            &&& curved
            &&& drag_type != DragType::MoveBezier
            &&& is_edge_hit(
                near,
                graph.edges(),
                world_pos,
                Some((edge_index, drag_type, Some(point_index as int))),
            )
        },
        InputTarget::Edge(edge_index) => {
            &&& no_node
            &&& curved
            &&& is_edge_hit(
                near,
                graph.edges(),
                world_pos,
                Some((edge_index, DragType::MoveBezier, None)),
            )
        },
        InputTarget::Canvas => no_node && (!curved || is_edge_hit(
            near,
            graph.edges(),
            world_pos,
            None,
        )),
        InputTarget::UI => false,
    }
}

/// Whether `g1` is `g0` with nothing changed but, at most, the selection.
pub open spec fn same_but_selection(g0: Graph, g1: Graph) -> bool {
    g1.graph == g0.graph && g1.edge_type == g0.edge_type && g1.editing_node == g0.editing_node
}

/// What a press of the primary button does to the state and the selection.
///
/// Only a machine at rest takes a press. With the pan key held the press
/// begins a pan, whatever is under the pointer. Otherwise a press on a node
/// with the adding modifier adds the node to the selection; without it the
/// press begins a drag, of the whole selection when the node is in it, else
/// of the node alone, which then is the selection. A press on a part of a
/// curved edge begins a drag of that part. A press on the canvas begins a
/// marquee, and drops the selection unless the adding modifier is held.
pub open spec fn primary_press_post(
    s0: InputStateManager,
    g0: Graph,
    s1: InputStateManager,
    g1: Graph,
    input: FrameInput,
    target: InputTarget,
) -> bool {
    let mouse = s0.context.current_mouse_pos;
    &&& s1.context == s0.context
    &&& s1.last_target == s0.last_target
    &&& same_but_selection(g0, g1)
    &&& if !(s0.current_state is Idle) {
        s1.current_state == s0.current_state && g1.selected == g0.selected
    } else if input.pan_key_down {
        s1.current_state == (InputState::Panning { last_cursor_pos: mouse }) && g1.selected
            == g0.selected
    } else {
        match target {
            InputTarget::Node(n) => {
                if s0.context.add_modifier {
                    &&& s1.current_state is Idle
                    &&& g1.selected is Node
                    &&& g1.selected.nodes() == (if g0.selected.nodes().contains(n) {
                        g0.selected.nodes()
                    } else {
                        g0.selected.nodes().push(n)
                    })
                } else if g0.selected.nodes().contains(n) {
                    &&& g1.selected == g0.selected
                    &&& s1.current_state matches InputState::DraggingNode {
                        node_index,
                        start_pos,
                        is_selection_drag,
                        selected_indices,
                    }
                    &&& node_index == n
                    &&& start_pos == mouse
                    &&& is_selection_drag
                    &&& selected_indices@ == g0.selected.nodes()
                } else {
                    &&& g1.selected is Node
                    &&& g1.selected.nodes() == seq![n]
                    &&& s1.current_state matches InputState::DraggingNode {
                        node_index,
                        start_pos,
                        is_selection_drag,
                        selected_indices,
                    }
                    &&& node_index == n
                    &&& start_pos == mouse
                    &&& !is_selection_drag
                    &&& selected_indices@ == seq![n]
                }
            },
            InputTarget::ControlPoint { edge_index, point_index, drag_type } => {
                &&& g1.selected == g0.selected
                &&& s1.current_state == (InputState::DraggingControlPoint {
                    edge_index,
                    point_index,
                    drag_type,
                    start_pos: mouse,
                })
            },
            InputTarget::Canvas => {
                &&& if s0.context.add_modifier {
                    g1.selected == g0.selected
                } else {
                    g1.selected is Empty
                }
                &&& s1.current_state == (InputState::Selecting {
                    start_pos: mouse,
                    current_pos: mouse,
                    add_to_selection: s0.context.add_modifier,
                })
            },
            _ => s1.current_state == s0.current_state && g1.selected == g0.selected,
        }
    }
}

/// What a press of the secondary button does: at rest and over a node, it
/// begins an edge out of that node.
pub open spec fn secondary_press_post(
    s0: InputStateManager,
    s1: InputStateManager,
    target: InputTarget,
) -> bool {
    &&& s1.context == s0.context
    &&& s1.last_target == s0.last_target
    &&& s1.current_state == (if s0.current_state is Idle && target is Node {
        InputState::CreatingEdge {
            source_node: target->Node_0,
            current_cursor_pos: s0.context.current_mouse_pos,
        }
    } else {
        s0.current_state
    })
}

/// What the marquee from `start_pos` to `current_pos` does to the selection:
/// the nodes whose position lies in it, in rising order of their slots,
/// become the selection, or with `add_to_selection` join the selected nodes.
pub open spec fn selection_preview_post(
    g0: Graph,
    g1: Graph,
    transform: TSTransform,
    start_pos: Pos2,
    current_pos: Pos2,
    add_to_selection: bool,
) -> bool {
    &&& same_but_selection(g0, g1)
    &&& g1.selected is Node
    &&& exists|inside: Seq<u32>|
        {
            &&& #[trigger] lists_within(
                inside,
                g0.nodes(),
                marquee_rect(transform, start_pos, current_pos),
            )
            &&& g1.selected.nodes() == (if add_to_selection && g0.selected is Node {
                merged(g0.selected.nodes(), inside)
            } else {
                inside
            })
        }
}

/// What committing an edge from `source` to `target` does: the edge is added
/// when both nodes are there, no edge joins them yet in either direction, and
/// there is room; it takes the next edge id and runs straight from the
/// position of the one node to that of the other. Otherwise nothing changes.
pub open spec fn create_edge_post(
    g0: Graph,
    c0: CanvasState,
    g1: Graph,
    c1: CanvasState,
    source: u32,
    target: u32,
) -> bool {
    &&& g1.nodes() == g0.nodes()
    &&& g1.edge_type == g0.edge_type
    &&& g1.selected == g0.selected
    &&& g1.editing_node == g0.editing_node
    &&& c1.transform == c0.transform
    &&& c1.global_node_id == c0.global_node_id
    &&& if g0.nodes().contains_key(source) && g0.nodes().contains_key(target)
        && g0.edges_between(source, target).len() == 0 && g0.edges().dom().len() < STORE_LIMIT {
        &&& c1.global_edge_id == next_id(c0.global_edge_id)
        &&& exists|e: u32, edge: Edge|
            {
                &&& !g0.edges().contains_key(e)
                &&& #[trigger] g1.edges() == g0.edges().insert(e, (source, target, edge))
                &&& is_fresh_edge(
                    edge,
                    c0.global_edge_id,
                    source,
                    target,
                    g0.nodes()[source].position,
                    g0.nodes()[target].position,
                )
            }
    } else {
        g1.graph == g0.graph && c1.global_edge_id == c0.global_edge_id
    }
}

/// Whether `edge` is as a gesture creates it: numbered `id`, unlabelled,
/// between `source` and `target`, straight from `from` to `to`.
pub open spec fn is_fresh_edge(
    edge: Edge,
    id: u64,
    source: u32,
    target: u32,
    from: Pos2,
    to: Pos2,
) -> bool {
    &&& edge.id == id
    &&& edge.source == source
    &&& edge.target == target
    &&& edge.text is None
    &&& edge.bezier_edge.source_anchor == Edge::fresh_anchor(from)
    &&& edge.bezier_edge.target_anchor == Edge::fresh_anchor(to)
    &&& edge.bezier_edge.control_anchors@.len() == 0
    &&& edge.line_edge.source.canvas_pos == from
    &&& edge.line_edge.target.canvas_pos == to
}

/// What creating a node at `canvas_pos` with an edge to it from `source`
/// does: when the source is there and there is room, a blank node with the
/// next node id goes into a free slot and an edge with the next edge id
/// joins the source to it. Otherwise nothing changes.
pub open spec fn create_node_with_edge_post(
    g0: Graph,
    c0: CanvasState,
    g1: Graph,
    c1: CanvasState,
    source: u32,
    canvas_pos: Pos2,
) -> bool {
    &&& g1.edge_type == g0.edge_type
    &&& g1.selected == g0.selected
    &&& g1.editing_node == g0.editing_node
    &&& c1.transform == c0.transform
    &&& if g0.nodes().contains_key(source) && g0.nodes().dom().len() < STORE_LIMIT
        && g0.edges().dom().len() < STORE_LIMIT {
        &&& c1.global_node_id == next_id(c0.global_node_id)
        &&& c1.global_edge_id == next_id(c0.global_edge_id)
        &&& exists|a: u32, node: Node, e: u32, edge: Edge|
            {
                &&& !g0.nodes().contains_key(a)
                &&& #[trigger] g1.nodes() == g0.nodes().insert(a, node)
                &&& is_blank_node(node, c0.global_node_id, canvas_pos)
                &&& !g0.edges().contains_key(e)
                &&& #[trigger] g1.edges() == g0.edges().insert(e, (source, a, edge))
                &&& is_fresh_edge(
                    edge,
                    c0.global_edge_id,
                    source,
                    a,
                    g0.nodes()[source].position,
                    canvas_pos,
                )
            }
    } else {
        g1.graph == g0.graph && c1.global_node_id == c0.global_node_id && c1.global_edge_id
            == c0.global_edge_id
    }
}

impl InputStateManager {
    pub fn handle_primary_button_press(
        &mut self,
        graph: &mut Graph,
        input: &FrameInput,
        target: &InputTarget,
    )
        ensures
            primary_press_post(*old(self), *old(graph), *final(self), *final(graph), *input, *target),
            old(graph).wf() ==> final(graph).wf(),
    {
        if !matches!(self.current_state, InputState::Idle) {
            return ;
        }
        let mouse = self.context.current_mouse_pos;
        if input.pan_key_down {
            self.transition_to(InputState::Panning { last_cursor_pos: mouse });
            return ;
        }
        match target {
            InputTarget::Node(node_index) => {
                let node_index = *node_index;
                if self.context.add_modifier {
                    graph.select_node(node_index);
                } else if graph.is_node_selected(node_index) {
                    let selected_nodes = graph.get_selected_nodes();
                    self.transition_to(
                        InputState::DraggingNode {
                            node_index,
                            start_pos: mouse,
                            is_selection_drag: true,
                            selected_indices: selected_nodes,
                        },
                    );
                } else {
                    graph.selected.clear();
                    graph.select_node(node_index);
                    let mut dragged = Vec::new();
                    dragged.push(node_index);
                    self.transition_to(
                        InputState::DraggingNode {
                            node_index,
                            start_pos: mouse,
                            is_selection_drag: false,
                            selected_indices: dragged,
                        },
                    );
                }
            },
            InputTarget::ControlPoint { edge_index, point_index, drag_type } => {
                self.transition_to(
                    InputState::DraggingControlPoint {
                        edge_index: *edge_index,
                        point_index: *point_index,
                        drag_type: *drag_type,
                        start_pos: mouse,
                    },
                );
            },
            InputTarget::Canvas => {
                let add = self.context.add_modifier;
                if !add {
                    graph.selected.clear();
                }
                self.transition_to(
                    InputState::Selecting {
                        start_pos: mouse,
                        current_pos: mouse,
                        add_to_selection: add,
                    },
                );
            },
            _ => {},
        }
    }

    pub fn handle_secondary_button_press(&mut self, target: &InputTarget)
        ensures
            secondary_press_post(*old(self), *final(self), *target),
    {
        if !matches!(self.current_state, InputState::Idle) {
            return ;
        }
        match target {
            InputTarget::Node(node_index) => {
                let mouse = self.context.current_mouse_pos;
                self.transition_to(
                    InputState::CreatingEdge {
                        source_node: *node_index,
                        current_cursor_pos: mouse,
                    },
                );
            },
            _ => {},
        }
    }

    /// Selects by the marquee from `start_pos` to `current_pos`, both on the
    /// screen: exactly the nodes whose position lies in the rectangle between
    /// the two, its border included, are selected, beside those that were
    /// selected before when `add_to_selection` is set.
    pub fn update_selection_preview(
        &self,
        graph: &mut Graph,
        canvas_state: &CanvasState,
        start_pos: Pos2,
        current_pos: Pos2,
        add_to_selection: bool,
    )
        ensures
            selection_preview_post(
                *old(graph),
                *final(graph),
                canvas_state.transform,
                start_pos,
                current_pos,
                add_to_selection,
            ),
            old(graph).wf() ==> final(graph).wf(),
            old(graph).wf() ==> forall|a: u32|
                #![trigger final(graph).selected.nodes().contains(a)]
                final(graph).selected.nodes().contains(a) <==> (old(graph).nodes().contains_key(a)
                    && rect_has(
                    marquee_rect(canvas_state.transform, start_pos, current_pos),
                    old(graph).nodes()[a].position,
                )) || (add_to_selection && old(graph).selected.nodes().contains(a)),
    {
        let start_canvas = self.context.screen_to_canvas(canvas_state, start_pos);
        let current_canvas = self.context.screen_to_canvas(canvas_state, current_pos);
        let selection_rect = rect_from_corners(start_canvas, current_canvas);
        let new_selected = nodes_within(graph, &selection_rect);
        let ghost inside = new_selected@;
        proof {
            assert(lists_within(
                inside,
                old(graph).nodes(),
                marquee_rect(canvas_state.transform, start_pos, current_pos),
            ));
            if old(graph).selected.nodes().no_duplicates() {
                lemma_merged(old(graph).selected.nodes(), inside);
            }
        }
        if add_to_selection && graph.selected.is_nodes() {
            graph.select_nodes(new_selected);
        } else {
            graph.selected = GraphSelection::Node(new_selected);
        }
        proof {
            if old(graph).wf() {
                assert forall|a: u32| #![trigger final(graph).selected.nodes().contains(a)]
                    final(graph).selected.nodes().contains(a) <==> (old(graph).nodes().contains_key(
                        a,
                    ) && rect_has(
                        marquee_rect(canvas_state.transform, start_pos, current_pos),
                        old(graph).nodes()[a].position,
                    )) || (add_to_selection && old(graph).selected.nodes().contains(a)) by {}
            }
        }
    }

    /// Settles the selection when the marquee is let go: the same as the
    /// preview.
    pub fn finalize_selection(
        &self,
        graph: &mut Graph,
        canvas_state: &CanvasState,
        start_pos: Pos2,
        current_pos: Pos2,
        add_to_selection: bool,
    )
        ensures
            selection_preview_post(
                *old(graph),
                *final(graph),
                canvas_state.transform,
                start_pos,
                current_pos,
                add_to_selection,
            ),
            old(graph).wf() ==> final(graph).wf(),
    {
        self.update_selection_preview(graph, canvas_state, start_pos, current_pos, add_to_selection);
    }

    pub fn create_edge(
        &self,
        graph: &mut Graph,
        canvas_state: &mut CanvasState,
        source: u32,
        target: u32,
    )
        ensures
            create_edge_post(
                *old(graph),
                *old(canvas_state),
                *final(graph),
                *final(canvas_state),
                source,
                target,
            ),
            old(graph).wf() ==> final(graph).wf(),
    {
        let positions = match (graph.get_node(source), graph.get_node(target)) {
            (Some(s), Some(t)) => Some((s.position, t.position)),
            _ => None,
        };
        if let Some((source_pos, target_pos)) = positions {
            if graph.edge_count_undirected(source, target) == 0 && graph.edge_count()
                < STORE_LIMIT as usize {
                let edge = Edge::new(source, target, source_pos, target_pos, canvas_state);
                graph.add_edge(edge);
            }
        }
    }

    pub fn create_node_with_edge(
        &self,
        graph: &mut Graph,
        canvas_state: &mut CanvasState,
        source: u32,
        canvas_pos: Pos2,
    )
        ensures
            create_node_with_edge_post(
                *old(graph),
                *old(canvas_state),
                *final(graph),
                *final(canvas_state),
                source,
                canvas_pos,
            ),
            old(graph).wf() ==> final(graph).wf(),
    {
        let source_there = graph.get_node(source).is_some();
        if source_there && graph.node_count() < STORE_LIMIT as usize && graph.edge_count()
            < STORE_LIMIT as usize {
            let new_node_id = canvas_state.new_node_id();
            let node = Node {
                id: new_node_id,
                position: canvas_pos,
                text: String::new(),
                note: String::new(),
            };
            graph.add_node_with_edge(node, source, canvas_state);
        }
    }
}

/// What a release of the primary button does: a drag or a pan ends, and a
/// marquee settles the selection; the machine is at rest afterwards.
pub open spec fn primary_release_post(
    s0: InputStateManager,
    g0: Graph,
    s1: InputStateManager,
    g1: Graph,
    transform: TSTransform,
) -> bool {
    &&& s1.context == s0.context
    &&& s1.last_target == s0.last_target
    &&& match s0.current_state {
        InputState::DraggingNode { .. }
        | InputState::Panning { .. }
        | InputState::DraggingControlPoint { .. } => s1.current_state is Idle && g1 == g0,
        InputState::Selecting { start_pos, current_pos, add_to_selection } => {
            &&& s1.current_state is Idle
            &&& selection_preview_post(g0, g1, transform, start_pos, current_pos, add_to_selection)
        },
        _ => s1.current_state == s0.current_state && g1 == g0,
    }
}

/// What a release of the secondary button does while an edge is pulled out
/// of a node: over another node the edge is committed, over the canvas a
/// node is created under the pointer with an edge to it, and the machine is
/// at rest afterwards.
pub open spec fn secondary_release_post(
    s0: InputStateManager,
    g0: Graph,
    c0: CanvasState,
    s1: InputStateManager,
    g1: Graph,
    c1: CanvasState,
    target: InputTarget,
) -> bool {
    &&& s1.context == s0.context
    &&& s1.last_target == s0.last_target
    &&& match s0.current_state {
        InputState::CreatingEdge { source_node, .. } => {
            &&& s1.current_state is Idle
            &&& match target {
                InputTarget::Node(target_node) => {
                    if source_node != target_node {
                        create_edge_post(g0, c0, g1, c1, source_node, target_node)
                    } else {
                        g1 == g0 && c1 == c0
                    }
                },
                InputTarget::Canvas => create_node_with_edge_post(
                    g0,
                    c0,
                    g1,
                    c1,
                    source_node,
                    ts_apply(ts_inverse(c0.transform), s0.context.current_mouse_pos),
                ),
                _ => g1 == g0 && c1 == c0,
            }
        },
        _ => s1.current_state == s0.current_state && g1 == g0 && c1 == c0,
    }
}

/// What a movement of the pointer by `delta`, on the screen, does in each
/// state that follows the pointer. A pan adds `delta` to the translation as
/// it is. A drag moves every dragged node, or the dragged part of a curve,
/// by `delta` divided by the scale. A marquee and a new edge reach to where
/// the pointer is now.
pub open spec fn mouse_motion_post(
    s0: InputStateManager,
    g0: Graph,
    c0: CanvasState,
    s1: InputStateManager,
    g1: Graph,
    c1: CanvasState,
    delta: Vec2,
) -> bool {
    let mouse = s0.context.current_mouse_pos;
    &&& s1.context == s0.context
    &&& s1.last_target == s0.last_target
    &&& c1.global_node_id == c0.global_node_id
    &&& c1.global_edge_id == c0.global_edge_id
    &&& g1.edge_type == g0.edge_type
    &&& g1.selected == g0.selected
    &&& g1.editing_node == g0.editing_node
    &&& match s0.current_state {
        InputState::Panning { .. } => {
            &&& c1.transform == ts_shifted(c0.transform, delta)
            &&& s1.current_state == (InputState::Panning { last_cursor_pos: mouse })
            &&& g1.graph == g0.graph
        },
        InputState::DraggingNode { .. } => {
            &&& c1.transform == c0.transform
            &&& s1.current_state == s0.current_state
            &&& g1.nodes() == nodes_moved(
                g0.nodes(),
                s0.current_state.dragged(),
                unscaled(c0.transform, delta),
            )
            &&& g1.edges() == g0.edges()
        },
        InputState::Selecting { start_pos, add_to_selection, .. } => {
            &&& c1.transform == c0.transform
            &&& s1.current_state == (InputState::Selecting {
                start_pos,
                current_pos: mouse,
                add_to_selection,
            })
            &&& g1.graph == g0.graph
        },
        InputState::CreatingEdge { source_node, .. } => {
            &&& c1.transform == c0.transform
            &&& s1.current_state == (InputState::CreatingEdge {
                source_node,
                current_cursor_pos: mouse,
            })
            &&& g1.graph == g0.graph
        },
        InputState::DraggingControlPoint { edge_index, point_index, drag_type, .. } => {
            &&& c1.transform == c0.transform
            &&& s1.current_state == s0.current_state
            &&& g1.nodes() == g0.nodes()
            &&& control_point_dragged(
                g0.edges(),
                g1.edges(),
                edge_index,
                point_index,
                drag_type,
                unscaled(c0.transform, delta),
            )
        },
        _ => c1.transform == c0.transform && s1.current_state == s0.current_state && g1.graph
            == g0.graph,
    }
}

/// What Escape does: from any state but rest, the machine comes to rest
/// and the selection and the editing are dropped.
pub open spec fn escape_post(
    s0: InputStateManager,
    g0: Graph,
    s1: InputStateManager,
    g1: Graph,
) -> bool {
    &&& s1.context == s0.context
    &&& s1.last_target == s0.last_target
    &&& g1.graph == g0.graph
    &&& g1.edge_type == g0.edge_type
    &&& if s0.current_state is Idle {
        s1.current_state is Idle && g1.selected == g0.selected && g1.editing_node
            == g0.editing_node
    } else {
        s1.current_state is Idle && g1.selected is Empty && g1.editing_node is None
    }
}

/// What Delete does: at rest, with no node being edited, every selected
/// node is removed with the edges at it, and the selection is dropped.
pub open spec fn delete_post(
    s0: InputStateManager,
    g0: Graph,
    s1: InputStateManager,
    g1: Graph,
) -> bool {
    &&& s1 == s0
    &&& g1.edge_type == g0.edge_type
    &&& g1.editing_node == g0.editing_node
    &&& if s0.current_state is Idle && g0.editing_node is None {
        &&& (g1.nodes(), g1.edges()) == store_without(
            g0.nodes(),
            g0.edges(),
            g0.selected.nodes(),
        )
        &&& g1.selected is Empty
    } else {
        g1.graph == g0.graph && g1.selected == g0.selected
    }
}

/// The selection after the node in slot `a` was added to it.
pub open spec fn with_node_selected(g0: Graph, g1: Graph, a: u32) -> bool {
    &&& g1.selected is Node
    &&& g1.selected.nodes() == (if g0.selected.nodes().contains(a) {
        g0.selected.nodes()
    } else {
        g0.selected.nodes().push(a)
    })
}

/// What a double click does at rest: on a node, the node is selected and
/// its text is edited; on the canvas, a blank node is created under the
/// pointer, selected, and edited.
pub open spec fn double_click_post(
    s0: InputStateManager,
    g0: Graph,
    c0: CanvasState,
    s1: InputStateManager,
    g1: Graph,
    c1: CanvasState,
    target: InputTarget,
) -> bool {
    &&& s1.context == s0.context
    &&& s1.last_target == s0.last_target
    &&& g1.edge_type == g0.edge_type
    &&& g1.edges() == g0.edges()
    &&& c1.transform == c0.transform
    &&& c1.global_edge_id == c0.global_edge_id
    &&& if s0.current_state is Idle && target is Node {
        let n = target->Node_0;
        &&& g1.graph == g0.graph
        &&& c1 == c0
        &&& with_node_selected(g0, g1, n)
        &&& g1.editing_node == Some(n)
        &&& s1.current_state == (InputState::EditingNode { node_index: n })
    } else if s0.current_state is Idle && target is Canvas && g0.nodes().dom().len()
        < STORE_LIMIT {
        &&& c1.global_node_id == next_id(c0.global_node_id)
        &&& exists|a: u32, node: Node|
            {
                &&& !g0.nodes().contains_key(a)
                &&& #[trigger] g1.nodes() == g0.nodes().insert(a, node)
                &&& is_blank_node(
                    node,
                    c0.global_node_id,
                    ts_apply(ts_inverse(c0.transform), s0.context.current_mouse_pos),
                )
                &&& with_node_selected(g0, g1, a)
                &&& g1.editing_node == Some(a)
                &&& s1.current_state == (InputState::EditingNode { node_index: a })
            }
    } else {
        s1.current_state == s0.current_state && g1 == g0 && c1 == c0
    }
}

impl InputStateManager {
    pub fn handle_primary_button_release(&mut self, graph: &mut Graph, canvas_state: &CanvasState)
        ensures
            primary_release_post(
                *old(self),
                *old(graph),
                *final(self),
                *final(graph),
                canvas_state.transform,
            ),
            old(graph).wf() ==> final(graph).wf(),
    {
        match &self.current_state {
            InputState::DraggingNode { .. }
            | InputState::Panning { .. }
            | InputState::DraggingControlPoint { .. } => {
                self.transition_to(InputState::Idle);
            },
            InputState::Selecting { start_pos, current_pos, add_to_selection } => {
                let start = *start_pos;
                let current = *current_pos;
                let add = *add_to_selection;
                self.finalize_selection(graph, canvas_state, start, current, add);
                self.transition_to(InputState::Idle);
            },
            _ => {},
        }
    }

    pub fn handle_secondary_button_release(
        &mut self,
        graph: &mut Graph,
        canvas_state: &mut CanvasState,
        target: &InputTarget,
    )
        ensures
            secondary_release_post(
                *old(self),
                *old(graph),
                *old(canvas_state),
                *final(self),
                *final(graph),
                *final(canvas_state),
                *target,
            ),
            old(graph).wf() ==> final(graph).wf(),
    {
        if let InputState::CreatingEdge { source_node, .. } = &self.current_state {
            let source_node = *source_node;
            match target {
                InputTarget::Node(target_node) => {
                    if source_node != *target_node {
                        self.create_edge(graph, canvas_state, source_node, *target_node);
                    }
                },
                InputTarget::Canvas => {
                    let canvas_pos = self.context.screen_to_canvas(
                        canvas_state,
                        self.context.current_mouse_pos,
                    );
                    self.create_node_with_edge(graph, canvas_state, source_node, canvas_pos);
                },
                _ => {},
            }
            self.transition_to(InputState::Idle);
        }
    }

    pub fn handle_mouse_motion(
        &mut self,
        graph: &mut Graph,
        canvas_state: &mut CanvasState,
        delta: Vec2,
    )
        ensures
            mouse_motion_post(
                *old(self),
                *old(graph),
                *old(canvas_state),
                *final(self),
                *final(graph),
                *final(canvas_state),
                delta,
            ),
            old(graph).wf() ==> final(graph).wf(),
    {
        let mouse = self.context.current_mouse_pos;
        match &self.current_state {
            InputState::Panning { .. } => {
                canvas_state.pan(delta);
                self.transition_to(InputState::Panning { last_cursor_pos: mouse });
            },
            InputState::DraggingNode { node_index, is_selection_drag, selected_indices, .. } => {
                let scaled_delta = canvas_state.to_canvas_delta(delta);
                if *is_selection_drag {
                    let mut i: usize = 0;
                    while i < selected_indices.len()
                        invariant
                            i <= selected_indices.len(),
                            graph.nodes() == nodes_moved(
                                old(graph).nodes(),
                                selected_indices@.take(i as int),
                                scaled_delta,
                            ),
                            graph.edges() == old(graph).edges(),
                            graph.edge_type == old(graph).edge_type,
                            graph.selected == old(graph).selected,
                            graph.editing_node == old(graph).editing_node,
                            old(graph).wf() ==> graph.wf(),
                        decreases selected_indices.len() - i,
                    {
                        proof {
                            let next = selected_indices@.take(i + 1);
                            assert(next.drop_last() == selected_indices@.take(i as int));
                        }
                        if !occurs_before(selected_indices, i) {
                            graph.move_node(selected_indices[i], scaled_delta);
                        }
                        i += 1;
                    }
                    proof {
                        assert(selected_indices@.take(i as int) == selected_indices@);
                    }
                } else {
                    proof {
                        let one = seq![*node_index];
                        assert(nodes_moved(old(graph).nodes(), one.drop_last(), scaled_delta)
                            == old(graph).nodes());
                    }
                    graph.move_node(*node_index, scaled_delta);
                }
            },
            InputState::Selecting { start_pos, add_to_selection, .. } => {
                let start = *start_pos;
                let add = *add_to_selection;
                self.transition_to(
                    InputState::Selecting {
                        start_pos: start,
                        current_pos: mouse,
                        add_to_selection: add,
                    },
                );
            },
            InputState::CreatingEdge { source_node, .. } => {
                let source = *source_node;
                self.transition_to(
                    InputState::CreatingEdge { source_node: source, current_cursor_pos: mouse },
                );
            },
            InputState::DraggingControlPoint { edge_index, point_index, drag_type, .. } => {
                let scaled_delta = canvas_state.to_canvas_delta(delta);
                graph.drag_control_point(*edge_index, *point_index, *drag_type, scaled_delta);
            },
            _ => {},
        }
    }

    pub fn handle_escape_key(&mut self, graph: &mut Graph)
        ensures
            escape_post(*old(self), *old(graph), *final(self), *final(graph)),
            old(graph).wf() ==> final(graph).wf(),
    {
        if !matches!(self.current_state, InputState::Idle) {
            self.transition_to(InputState::Idle);
            graph.selected.clear();
            graph.set_editing_node(None);
        }
    }

    pub fn handle_delete_key(&mut self, graph: &mut Graph)
        ensures
            delete_post(*old(self), *old(graph), *final(self), *final(graph)),
            old(graph).wf() ==> final(graph).wf(),
    {
        if !matches!(self.current_state, InputState::Idle) || graph.editing_node.is_some() {
            return ;
        }
        let nodes_to_remove = graph.get_selected_nodes();
        let mut i: usize = 0;
        while i < nodes_to_remove.len()
            invariant
                i <= nodes_to_remove.len(),
                (graph.nodes(), graph.edges()) == store_without(
                    old(graph).nodes(),
                    old(graph).edges(),
                    nodes_to_remove@.take(i as int),
                ),
                graph.edge_type == old(graph).edge_type,
                graph.selected == old(graph).selected,
                graph.editing_node is None,
                old(graph).wf() ==> graph.wf(),
            decreases nodes_to_remove.len() - i,
        {
            proof {
                let next = nodes_to_remove@.take(i + 1);
                assert(next.drop_last() == nodes_to_remove@.take(i as int));
            }
            graph.remove_node(nodes_to_remove[i]);
            i += 1;
        }
        proof {
            assert(nodes_to_remove@.take(i as int) == nodes_to_remove@);
        }
        graph.selected.clear();
    }

    pub fn handle_double_click(
        &mut self,
        graph: &mut Graph,
        canvas_state: &mut CanvasState,
        target: &InputTarget,
    )
        ensures
            double_click_post(
                *old(self),
                *old(graph),
                *old(canvas_state),
                *final(self),
                *final(graph),
                *final(canvas_state),
                *target,
            ),
            old(graph).wf() ==> final(graph).wf(),
    {
        if !matches!(self.current_state, InputState::Idle) {
            return ;
        }
        match target {
            InputTarget::Node(node_index) => {
                let node_index = *node_index;
                graph.select_node(node_index);
                graph.set_editing_node(Some(node_index));
                self.transition_to(InputState::EditingNode { node_index });
            },
            InputTarget::Canvas => {
                if graph.node_count() < STORE_LIMIT as usize {
                    let canvas_pos = self.context.screen_to_canvas(
                        canvas_state,
                        self.context.current_mouse_pos,
                    );
                    let new_node_id = canvas_state.new_node_id();
                    let node = Node {
                        id: new_node_id,
                        position: canvas_pos,
                        text: String::new(),
                        note: String::new(),
                    };
                    let node_index = graph.add_node(node);
                    graph.select_node(node_index);
                    graph.set_editing_node(Some(node_index));
                    self.transition_to(InputState::EditingNode { node_index });
                }
            },
            _ => {},
        }
    }

    /// Scrolling pans the view, at rest only.
    pub fn handle_scroll(&self, canvas_state: &mut CanvasState, delta: Vec2)
        ensures
            final(canvas_state).transform == (if self.current_state is Idle {
                ts_shifted(old(canvas_state).transform, delta)
            } else {
                old(canvas_state).transform
            }),
            final(canvas_state).global_node_id == old(canvas_state).global_node_id,
            final(canvas_state).global_edge_id == old(canvas_state).global_edge_id,
    {
        if matches!(self.current_state, InputState::Idle) {
            canvas_state.pan(delta);
        }
    }

    /// Zooming scales the view about the pointer, in every state.
    pub fn handle_zoom(&self, canvas_state: &mut CanvasState, step: TSTransform)
        ensures
            final(canvas_state).transform == zoomed(
                old(canvas_state).transform,
                self.context.current_mouse_pos,
                step,
            ),
            final(canvas_state).global_node_id == old(canvas_state).global_node_id,
            final(canvas_state).global_edge_id == old(canvas_state).global_edge_id,
    {
        canvas_state.zoom(self.context.current_mouse_pos, step);
    }

    /// The text field was left: editing ends and the machine comes to rest.
    pub fn handle_edit_finished(&mut self, graph: &mut Graph)
        ensures
            final(self).context == old(self).context,
            final(self).last_target == old(self).last_target,
            final(graph).graph == old(graph).graph,
            final(graph).edge_type == old(graph).edge_type,
            final(graph).selected == old(graph).selected,
            old(self).current_state is EditingNode ==> final(self).current_state is Idle
                && final(graph).editing_node is None,
            !(old(self).current_state is EditingNode) ==> final(self).current_state == old(
                self,
            ).current_state && final(graph).editing_node == old(graph).editing_node,
    {
        if matches!(self.current_state, InputState::EditingNode { .. }) {
            graph.set_editing_node(None);
            self.transition_to(InputState::Idle);
        }
    }

    /// The pan key was let go: a pan ends.
    pub fn handle_pan_key_release(&mut self)
        ensures
            final(self).context == old(self).context,
            final(self).last_target == old(self).last_target,
            final(self).current_state == (if old(self).current_state is Panning {
                InputState::Idle
            } else {
                old(self).current_state
            }),
    {
        if matches!(self.current_state, InputState::Panning { .. }) {
            self.transition_to(InputState::Idle);
        }
    }
}

/// The rules of the machine. In each frame exactly one of them fires.
#[derive(Debug, Clone, Copy, PartialEq, Eq, Structural)]
pub enum Rule {
    /// Nothing happens.
    Rest,
    /// Escape cancels what is under way.
    Escape,
    /// A press of the primary button begins a pan, a drag or a marquee, or
    /// adds to the selection.
    PrimaryPress,
    /// A press of the secondary button begins an edge.
    SecondaryPress,
    /// A double click begins editing.
    DoubleClick,
    /// Delete removes the selected nodes.
    Delete,
    /// A release of the primary button ends a pan, a drag or a marquee.
    PrimaryRelease,
    /// A release of the pan key ends a pan.
    PanKeyRelease,
    /// A release of the secondary button commits a new edge.
    SecondaryRelease,
    /// Leaving the text field ends editing.
    EditFinished,
    /// The gesture under way follows the pointer.
    Motion,
}

/// The rule that fires in `state` on `input` with the pointer over `target`.
///
/// Escape comes first in every state but rest. At rest the order is: a press
/// of the primary button, a press of the secondary button on a node, a
/// double click, Delete. In the other states a release that ends the gesture
/// comes before the pointer's movement.
pub open spec fn rule_for(state: InputState, input: FrameInput, target: InputTarget) -> Rule {
    if !(state is Idle) && input.escape_pressed {
        Rule::Escape
    } else {
        match state {
            InputState::Idle => {
                if input.primary_pressed && (input.pan_key_down || target is Node
                    || target is ControlPoint || target is Canvas) {
                    Rule::PrimaryPress
                } else if input.secondary_pressed && target is Node {
                    Rule::SecondaryPress
                } else if input.primary_double_clicked && (target is Node || target is Canvas) {
                    Rule::DoubleClick
                } else if input.delete_pressed {
                    Rule::Delete
                } else {
                    Rule::Rest
                }
            },
            InputState::Panning { .. } => {
                if input.primary_released {
                    Rule::PrimaryRelease
                } else if input.pan_key_released {
                    Rule::PanKeyRelease
                } else if moved(input.pointer_delta) {
                    Rule::Motion
                } else {
                    Rule::Rest
                }
            },
            InputState::DraggingNode { .. }
            | InputState::DraggingControlPoint { .. }
            | InputState::Selecting { .. } => {
                if input.primary_released {
                    Rule::PrimaryRelease
                } else if moved(input.pointer_delta) {
                    Rule::Motion
                } else {
                    Rule::Rest
                }
            },
            InputState::CreatingEdge { .. } => {
                if input.secondary_released {
                    Rule::SecondaryRelease
                } else if moved(input.pointer_delta) {
                    Rule::Motion
                } else {
                    Rule::Rest
                }
            },
            InputState::EditingNode { .. } => {
                if input.edit_finished {
                    Rule::EditFinished
                } else {
                    Rule::Rest
                }
            },
        }
    }
}

/// What the rule `rule` does, in the words of the handler it stands for.
pub open spec fn rule_post(
    rule: Rule,
    s0: InputStateManager,
    g0: Graph,
    c0: CanvasState,
    s1: InputStateManager,
    g1: Graph,
    c1: CanvasState,
    input: FrameInput,
    target: InputTarget,
) -> bool {
    match rule {
        Rule::Rest => s1 == s0 && g1 == g0 && c1 == c0,
        Rule::Escape => escape_post(s0, g0, s1, g1) && c1 == c0,
        Rule::PrimaryPress => primary_press_post(s0, g0, s1, g1, input, target) && c1 == c0,
        Rule::SecondaryPress => secondary_press_post(s0, s1, target) && g1 == g0 && c1 == c0,
        Rule::DoubleClick => double_click_post(s0, g0, c0, s1, g1, c1, target),
        Rule::Delete => delete_post(s0, g0, s1, g1) && c1 == c0,
        Rule::PrimaryRelease => primary_release_post(s0, g0, s1, g1, c0.transform) && c1 == c0,
        Rule::PanKeyRelease => {
            &&& s1.context == s0.context
            &&& s1.last_target == s0.last_target
            &&& s1.current_state == (if s0.current_state is Panning {
                InputState::Idle
            } else {
                s0.current_state
            })
            &&& g1 == g0
            &&& c1 == c0
        },
        Rule::SecondaryRelease => secondary_release_post(s0, g0, c0, s1, g1, c1, target),
        Rule::EditFinished => {
            &&& s1.context == s0.context
            &&& s1.last_target == s0.last_target
            &&& g1.graph == g0.graph
            &&& g1.edge_type == g0.edge_type
            &&& g1.selected == g0.selected
            &&& if s0.current_state is EditingNode {
                s1.current_state is Idle && g1.editing_node is None
            } else {
                s1.current_state == s0.current_state && g1.editing_node == g0.editing_node
            }
            &&& c1 == c0
        },
        Rule::Motion => mouse_motion_post(s0, g0, c0, s1, g1, c1, input.pointer_delta),
    }
}

/// What the machine takes in of a frame before any rule fires: where the
/// pointer is, which buttons are down, and what the pointer is over.
pub open spec fn frame_taken_in(
    s0: InputStateManager,
    s1: InputStateManager,
    input: FrameInput,
    target: InputTarget,
) -> bool {
    &&& s1.current_state == s0.current_state
    &&& s1.last_target == Some(target)
    &&& s1.context.prev_mouse_pos == s0.context.current_mouse_pos
    &&& s1.context.current_mouse_pos == (match input.pointer_pos {
        Some(pos) => pos,
        None => s0.context.current_mouse_pos,
    })
    &&& s1.context.add_modifier == input.add_modifier
    &&& s1.context.pressed_buttons.is_down(PointerButton::Primary) == input.primary_down
    &&& s1.context.pressed_buttons.is_down(PointerButton::Secondary) == input.secondary_down
    &&& s1.context.pressed_buttons.is_down(PointerButton::Middle) == input.middle_down
    &&& s1.context.pressed_buttons.is_down(PointerButton::Extra1) == input.extra1_down
    &&& s1.context.pressed_buttons.is_down(PointerButton::Extra2) == input.extra2_down
}

/// What a marquee under way does in every frame: the selection is made to
/// fit it.
pub open spec fn marquee_kept(s: InputStateManager, g0: Graph, g1: Graph, transform: TSTransform) -> bool {
    match s.current_state {
        InputState::Selecting { start_pos, current_pos, add_to_selection } => {
            selection_preview_post(g0, g1, transform, start_pos, current_pos, add_to_selection)
        },
        _ => g1 == g0,
    }
}

/// What zoom and scroll do to the view, after the rule of the frame has
/// fired. A zoom, which is a scaling step whose scale is not one, is applied
/// in every state, about the pointer. A scroll pans the view only at rest,
/// and only in a frame without zoom.
pub open spec fn view_moved(
    s: InputStateManager,
    c0: CanvasState,
    c1: CanvasState,
    input: FrameInput,
) -> bool {
    &&& c1.global_node_id == c0.global_node_id
    &&& c1.global_edge_id == c0.global_edge_id
    &&& c1.transform == (if zooms(input.zoom) {
        zoomed(c0.transform, s.context.current_mouse_pos, input.zoom)
    } else if moved(input.scroll_delta) && s.current_state is Idle {
        ts_shifted(c0.transform, input.scroll_delta)
    } else {
        c0.transform
    })
}

/// One frame with the pointer over `target`: the frame is taken in, the one
/// rule that applies fires, a marquee under way is kept up, and the view is
/// zoomed or scrolled.
pub open spec fn step_post(
    target: InputTarget,
    s0: InputStateManager,
    g0: Graph,
    c0: CanvasState,
    s1: InputStateManager,
    g1: Graph,
    c1: CanvasState,
    cache: Map<u32, NodeRenderInfo>,
    input: FrameInput,
) -> bool {
    exists|s_in: InputStateManager, g_mid: Graph, c_mid: CanvasState|
        step_through(target, s0, g0, c0, s_in, g_mid, c_mid, s1, g1, c1, cache, input)
}

/// The same with what lies between told: `s_in` is the machine after the
/// frame was taken in, `g_mid` and `c_mid` are the graph and the view after
/// the rule has fired.
pub open spec fn step_through(
    target: InputTarget,
    s0: InputStateManager,
    g0: Graph,
    c0: CanvasState,
    s_in: InputStateManager,
    g_mid: Graph,
    c_mid: CanvasState,
    s1: InputStateManager,
    g1: Graph,
    c1: CanvasState,
    cache: Map<u32, NodeRenderInfo>,
    input: FrameInput,
) -> bool {
    &&& frame_taken_in(s0, s_in, input, target)
    &&& is_target(target, g0, cache, c0.transform, pointed_at(input.pointer_pos))
    &&& rule_post(
        rule_for(s0.current_state, input, target),
        s_in,
        g0,
        c0,
        s1,
        g_mid,
        c_mid,
        input,
        target,
    )
    &&& marquee_kept(s1, g_mid, g1, c_mid.transform)
    &&& view_moved(s1, c_mid, c1, input)
}

/// From rest, one frame fires one rule and no more, whatever else the frame
/// holds: a press of the primary button wins over a press of the secondary
/// button, that over a double click, and that over Delete; and of what a
/// press of the primary button may begin, the pan wins over the drag and the
/// marquee. A press of the primary button on a curved edge begins nothing:
/// the machine stays at rest. The state after the frame is the state that
/// the winning rule leads to, and what the losing rules would have changed
/// is unchanged.
pub proof fn lemma_rest_fires_one_rule(
    target: InputTarget,
    s0: InputStateManager,
    g0: Graph,
    c0: CanvasState,
    s1: InputStateManager,
    g1: Graph,
    c1: CanvasState,
    cache: Map<u32, NodeRenderInfo>,
    input: FrameInput,
)
    requires
        step_post(target, s0, g0, c0, s1, g1, c1, cache, input),
        s0.current_state is Idle,
    ensures
        target is Node || target is ControlPoint || target is Edge || target is Canvas,
        input.primary_pressed && input.pan_key_down ==> s1.current_state is Panning,
        input.primary_pressed && !input.pan_key_down && target is Node ==> (
        if input.add_modifier {
            s1.current_state is Idle
        } else {
            s1.current_state is DraggingNode
        }),
        input.primary_pressed && !input.pan_key_down && target is ControlPoint
            ==> s1.current_state is DraggingControlPoint,
        input.primary_pressed && !input.pan_key_down && target is Canvas
            ==> s1.current_state is Selecting,
        input.primary_pressed && !input.pan_key_down && target is Edge
            ==> s1.current_state is Idle,
        input.primary_pressed && (input.pan_key_down || !(target is Edge)) ==> g1.nodes()
            == g0.nodes() && g1.edges() == g0.edges() && g1.editing_node == g0.editing_node
            && c1.global_node_id == c0.global_node_id,
        !input.primary_pressed && input.secondary_pressed && target is Node
            ==> s1.current_state is CreatingEdge && g1 == g0 && c1.global_node_id
            == c0.global_node_id,
        !input.primary_pressed && !(input.secondary_pressed && target is Node)
            && input.primary_double_clicked && target is Node ==> s1.current_state is EditingNode
            && g1.nodes() == g0.nodes(),
        !input.primary_pressed && !(input.secondary_pressed && target is Node)
            && input.primary_double_clicked && target is Canvas && g0.nodes().dom().len()
            < STORE_LIMIT ==> s1.current_state is EditingNode,
        !input.primary_pressed && !(input.secondary_pressed && target is Node)
            && !input.primary_double_clicked ==> s1.current_state is Idle,
        s1.current_state is Idle || s1.current_state is Panning || s1.current_state is DraggingNode
            || s1.current_state is DraggingControlPoint || s1.current_state is Selecting
            || s1.current_state is CreatingEdge || s1.current_state is EditingNode,
{
    let (s_in, g_mid, c_mid) = choose|s_in: InputStateManager, g_mid: Graph, c_mid: CanvasState|
        step_through(target, s0, g0, c0, s_in, g_mid, c_mid, s1, g1, c1, cache, input);
}

/// In every state but rest, Escape wins over everything else in the frame:
/// the machine comes to rest with nothing selected and nothing edited, and
/// neither a node nor an edge is added, moved or removed.
pub proof fn lemma_escape_cancels(
    target: InputTarget,
    s0: InputStateManager,
    g0: Graph,
    c0: CanvasState,
    s1: InputStateManager,
    g1: Graph,
    c1: CanvasState,
    cache: Map<u32, NodeRenderInfo>,
    input: FrameInput,
)
    requires
        step_post(target, s0, g0, c0, s1, g1, c1, cache, input),
        !(s0.current_state is Idle),
        input.escape_pressed,
    ensures
        s1.current_state is Idle,
        g1.selected is Empty,
        g1.editing_node is None,
        g1.graph == g0.graph,
        c1.global_node_id == c0.global_node_id,
        c1.global_edge_id == c0.global_edge_id,
{
    let (s_in, g_mid, c_mid) = choose|s_in: InputStateManager, g_mid: Graph, c_mid: CanvasState|
        step_through(target, s0, g0, c0, s_in, g_mid, c_mid, s1, g1, c1, cache, input);
}

/// Whether two states are the same gesture, whatever its details.
pub open spec fn same_gesture(a: InputState, b: InputState) -> bool {
    match a {
        InputState::Idle => b is Idle,
        InputState::Panning { .. } => b is Panning,
        InputState::DraggingNode { .. } => b is DraggingNode,
        InputState::EditingNode { .. } => b is EditingNode,
        InputState::CreatingEdge { .. } => b is CreatingEdge,
        InputState::DraggingControlPoint { .. } => b is DraggingControlPoint,
        InputState::Selecting { .. } => b is Selecting,
    }
}

/// A gesture under way is never replaced by another: whatever a frame
/// holds, the gesture goes on or the machine comes to rest. So a press that
/// would begin a marquee begins none while the view is panned, and so on.
/// While a gesture goes on, no node and no edge is added or removed.
pub proof fn lemma_gesture_goes_on_or_ends(
    target: InputTarget,
    s0: InputStateManager,
    g0: Graph,
    c0: CanvasState,
    s1: InputStateManager,
    g1: Graph,
    c1: CanvasState,
    cache: Map<u32, NodeRenderInfo>,
    input: FrameInput,
)
    requires
        step_post(target, s0, g0, c0, s1, g1, c1, cache, input),
        !(s0.current_state is Idle),
    ensures
        s1.current_state is Idle || same_gesture(s0.current_state, s1.current_state),
        !(s1.current_state is Idle) ==> g1.nodes().dom() == g0.nodes().dom() && g1.edges().dom()
            == g0.edges().dom(),
{
    let (s_in, g_mid, c_mid) = choose|s_in: InputStateManager, g_mid: Graph, c_mid: CanvasState|
        step_through(target, s0, g0, c0, s_in, g_mid, c_mid, s1, g1, c1, cache, input);
    if rule_for(s0.current_state, input, target) == Rule::Motion {
        lemma_nodes_moved_keep_ids(
            g0.nodes(),
            s_in.current_state.dragged(),
            unscaled(c0.transform, input.pointer_delta),
        );
    }
}

/// Whether every node and every edge has an id that the counters have
/// already passed, and no two nodes and no two edges share an id.
pub open spec fn ids_fresh(g: Graph, c: CanvasState) -> bool {
    &&& forall|a: u32| #[trigger]
        g.nodes().contains_key(a) ==> g.nodes()[a].id < c.global_node_id
    &&& forall|a: u32, b: u32|
        #![trigger g.nodes()[a], g.nodes()[b]]
        g.nodes().contains_key(a) && g.nodes().contains_key(b) && a != b ==> g.nodes()[a].id
            != g.nodes()[b].id
    &&& forall|e: u32| #[trigger]
        g.edges().contains_key(e) ==> g.edges()[e].2.id < c.global_edge_id
    &&& forall|e: u32, f: u32|
        #![trigger g.edges()[e], g.edges()[f]]
        g.edges().contains_key(e) && g.edges().contains_key(f) && e != f ==> g.edges()[e].2.id
            != g.edges()[f].2.id
}

/// Moving nodes leaves each node its id.
pub proof fn lemma_nodes_moved_keep_ids(nodes: Map<u32, Node>, ids: Seq<u32>, delta: Vec2)
    ensures
        nodes_moved(nodes, ids, delta).dom() == nodes.dom(),
        forall|a: u32| #[trigger]
            nodes.contains_key(a) ==> nodes_moved(nodes, ids, delta)[a].id == nodes[a].id,
    decreases ids.len(),
{
    if ids.len() > 0 {
        lemma_nodes_moved_keep_ids(nodes, ids.drop_last(), delta);
    }
}

/// No id is used twice. As long as the counters have not run through every
/// `u64`, one frame of input keeps every id in the graph behind the
/// counters and apart from every other: what is created takes the next id,
/// and nothing that exists changes its id.
pub proof fn lemma_step_keeps_ids_fresh(
    target: InputTarget,
    s0: InputStateManager,
    g0: Graph,
    c0: CanvasState,
    s1: InputStateManager,
    g1: Graph,
    c1: CanvasState,
    cache: Map<u32, NodeRenderInfo>,
    input: FrameInput,
)
    requires
        step_post(target, s0, g0, c0, s1, g1, c1, cache, input),
        ids_fresh(g0, c0),
        c0.global_node_id < u64::MAX,
        c0.global_edge_id < u64::MAX,
    ensures
        ids_fresh(g1, c1),
        c1.global_node_id >= c0.global_node_id,
        c1.global_edge_id >= c0.global_edge_id,
{
    let (s_in, g_mid, c_mid) = choose|s_in: InputStateManager, g_mid: Graph, c_mid: CanvasState|
        step_through(target, s0, g0, c0, s_in, g_mid, c_mid, s1, g1, c1, cache, input);
    let rule = rule_for(s0.current_state, input, target);
    match rule {
        Rule::Motion => {
            lemma_nodes_moved_keep_ids(
                g0.nodes(),
                s_in.current_state.dragged(),
                unscaled(c0.transform, input.pointer_delta),
            );
        },
        Rule::Delete => {
            lemma_store_without(g0.nodes(), g0.edges(), g0.selected.nodes());
            let left = store_without(g0.nodes(), g0.edges(), g0.selected.nodes());
            if s_in.current_state is Idle && g0.editing_node is None {
                assert(g_mid.nodes() == left.0);
                assert(g_mid.edges() == left.1);
                assert forall|a: u32| #[trigger] g_mid.nodes().contains_key(a) implies g0.nodes().contains_key(
                    a,
                ) && g_mid.nodes()[a] == g0.nodes()[a] by {}
                assert forall|e: u32| #[trigger] g_mid.edges().contains_key(e) implies g0.edges().contains_key(
                    e,
                ) && g_mid.edges()[e] == g0.edges()[e] by {}
            }
        },
        _ => {},
    }
}

/// Whether no edge runs from a node to itself and no two edges join the
/// same two nodes, in whichever direction.
pub open spec fn edges_apart(g: Graph) -> bool {
    &&& forall|e: u32| #[trigger] g.edges().contains_key(e) ==> g.edges()[e].0 != g.edges()[e].1
    &&& forall|e: u32, f: u32|
        #![trigger g.edges()[e], g.edges()[f]]
        g.edges().contains_key(e) && g.edges().contains_key(f) && e != f ==> !joins(
            g.edges()[e].0,
            g.edges()[e].1,
            g.edges()[f].0,
            g.edges()[f].1,
        )
}

/// Gestures never double an edge. In a well-formed graph in which no edge
/// runs from a node to itself and no two edges join the same two nodes, one
/// frame of input leaves it so: an edge is only committed between two
/// different nodes that no edge joins yet.
pub proof fn lemma_step_keeps_edges_apart(
    target: InputTarget,
    s0: InputStateManager,
    g0: Graph,
    c0: CanvasState,
    s1: InputStateManager,
    g1: Graph,
    c1: CanvasState,
    cache: Map<u32, NodeRenderInfo>,
    input: FrameInput,
)
    requires
        step_post(target, s0, g0, c0, s1, g1, c1, cache, input),
        g0.wf(),
        edges_apart(g0),
    ensures
        edges_apart(g1),
{
    let (s_in, g_mid, c_mid) = choose|s_in: InputStateManager, g_mid: Graph, c_mid: CanvasState|
        step_through(target, s0, g0, c0, s_in, g_mid, c_mid, s1, g1, c1, cache, input);
    let rule = rule_for(s0.current_state, input, target);
    match rule {
        Rule::Delete => {
            lemma_store_without(g0.nodes(), g0.edges(), g0.selected.nodes());
            let left = store_without(g0.nodes(), g0.edges(), g0.selected.nodes());
            if s_in.current_state is Idle && g0.editing_node is None {
                assert(g_mid.edges() == left.1);
                assert forall|e: u32| #[trigger] g_mid.edges().contains_key(e) implies g0.edges().contains_key(
                    e,
                ) && g_mid.edges()[e] == g0.edges()[e] by {}
            }
        },
        Rule::SecondaryRelease => {
            if s_in.current_state is CreatingEdge {
                let source_node = s_in.current_state->CreatingEdge_source_node;
                match target {
                    InputTarget::Node(target_node) => {
                        if source_node != target_node {
                            let between = g0.edges_between(source_node, target_node);
                            lemma_slots_finite(between);
                            if between.len() == 0 {
                                assert(between =~= Set::empty());
                                assert forall|f: u32| #[trigger]
                                    g0.edges().contains_key(f) implies !joins(
                                    g0.edges()[f].0,
                                    g0.edges()[f].1,
                                    source_node,
                                    target_node,
                                ) by {
                                    assert(!between.contains(f));
                                }
                            }
                        }
                    },
                    _ => {},
                }
            }
        },
        _ => {},
    }
    assert(edges_apart(g_mid));
}

impl InputStateManager {
    /// Picks the rule that fires.
    pub fn choose_rule(&self, input: &FrameInput, target: &InputTarget) -> (rule: Rule)
        ensures
            rule == rule_for(self.current_state, *input, *target),
    {
        if !matches!(self.current_state, InputState::Idle) && input.escape_pressed {
            return Rule::Escape;
        }
        let pointer_moved = is_moved(input.pointer_delta);
        match &self.current_state {
            InputState::Idle => {
                let pressable = matches!(
                    target,
                    InputTarget::Node(_) | InputTarget::ControlPoint { .. } | InputTarget::Canvas
                );
                let on_node = matches!(target, InputTarget::Node(_));
                let editable = matches!(target, InputTarget::Node(_) | InputTarget::Canvas);
                if input.primary_pressed && (input.pan_key_down || pressable) {
                    Rule::PrimaryPress
                } else if input.secondary_pressed && on_node {
                    Rule::SecondaryPress
                } else if input.primary_double_clicked && editable {
                    Rule::DoubleClick
                } else if input.delete_pressed {
                    Rule::Delete
                } else {
                    Rule::Rest
                }
            },
            InputState::Panning { .. } => {
                if input.primary_released {
                    Rule::PrimaryRelease
                } else if input.pan_key_released {
                    Rule::PanKeyRelease
                } else if pointer_moved {
                    Rule::Motion
                } else {
                    Rule::Rest
                }
            },
            InputState::DraggingNode { .. }
            | InputState::DraggingControlPoint { .. }
            | InputState::Selecting { .. } => {
                if input.primary_released {
                    Rule::PrimaryRelease
                } else if pointer_moved {
                    Rule::Motion
                } else {
                    Rule::Rest
                }
            },
            InputState::CreatingEdge { .. } => {
                if input.secondary_released {
                    Rule::SecondaryRelease
                } else if pointer_moved {
                    Rule::Motion
                } else {
                    Rule::Rest
                }
            },
            InputState::EditingNode { .. } => {
                if input.edit_finished {
                    Rule::EditFinished
                } else {
                    Rule::Rest
                }
            },
        }
    }

    /// One frame of input. The graph stays well formed.
    pub fn update(
        &mut self,
        graph: &mut Graph,
        canvas_state: &mut CanvasState,
        cache: &RenderInfoCache,
        input: &FrameInput,
    )
        ensures
            exists|target: InputTarget| #[trigger]
                step_post(
                    target,
                    *old(self),
                    *old(graph),
                    *old(canvas_state),
                    *final(self),
                    *final(graph),
                    *final(canvas_state),
                    cache@,
                    *input,
                ),
            old(graph).wf() ==> final(graph).wf(),
    {
        self.context.update(input);
        let target = self.determine_target(graph, canvas_state, cache, input.pointer_pos);
        self.last_target = Some(target);
        let ghost s_in = *self;
        proof {
            assert(frame_taken_in(*old(self), s_in, *input, target));
        }
        let rule = self.choose_rule(input, &target);
        match rule {
            Rule::Rest => {},
            Rule::Escape => self.handle_escape_key(graph),
            Rule::PrimaryPress => self.handle_primary_button_press(graph, input, &target),
            Rule::SecondaryPress => self.handle_secondary_button_press(&target),
            Rule::DoubleClick => self.handle_double_click(graph, canvas_state, &target),
            Rule::Delete => self.handle_delete_key(graph),
            Rule::PrimaryRelease => self.handle_primary_button_release(graph, canvas_state),
            Rule::PanKeyRelease => self.handle_pan_key_release(),
            Rule::SecondaryRelease => self.handle_secondary_button_release(
                graph,
                canvas_state,
                &target,
            ),
            Rule::EditFinished => self.handle_edit_finished(graph),
            Rule::Motion => self.handle_mouse_motion(graph, canvas_state, input.pointer_delta),
        }
        let ghost g_mid = *graph;
        let ghost c_mid = *canvas_state;
        proof {
            assert(rule_post(
                rule_for(old(self).current_state, *input, target),
                s_in,
                *old(graph),
                *old(canvas_state),
                *self,
                g_mid,
                c_mid,
                *input,
                target,
            ));
        }
        self.handle_state_specific_updates(graph, canvas_state);
        if is_zoom(&input.zoom) {
            self.handle_zoom(canvas_state, input.zoom);
        } else if is_moved(input.scroll_delta) {
            self.handle_scroll(canvas_state, input.scroll_delta);
        }
        proof {
            assert(step_through(
                target,
                *old(self),
                *old(graph),
                *old(canvas_state),
                s_in,
                g_mid,
                c_mid,
                *self,
                *graph,
                *canvas_state,
                cache@,
                *input,
            ));
            assert(step_post(
                target,
                *old(self),
                *old(graph),
                *old(canvas_state),
                *self,
                *graph,
                *canvas_state,
                cache@,
                *input,
            ));
        }
    }

    /// What a state does in every frame it lasts: a marquee keeps the
    /// selection fitted to it.
    pub fn handle_state_specific_updates(&self, graph: &mut Graph, canvas_state: &CanvasState)
        ensures
            marquee_kept(*self, *old(graph), *final(graph), canvas_state.transform),
            old(graph).wf() ==> final(graph).wf(),
    {
        match &self.current_state {
            InputState::Selecting { start_pos, current_pos, add_to_selection } => {
                self.update_selection_preview(
                    graph,
                    canvas_state,
                    *start_pos,
                    *current_pos,
                    *add_to_selection,
                );
            },
            _ => {},
        }
    }
}

} // verus!
