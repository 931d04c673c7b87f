//! What the renderer reports of what it drew.
use vstd::prelude::*;
use std::collections::HashMap;
use egui::{Pos2, Rect};
use crate::canvas::CanvasState;
use crate::plane::{rect_center, rect_middle, ts_apply_rect};

verus! {

broadcast use vstd::std_specs::hash::group_hash_axioms;

/// Where a node was drawn last: its bounding rectangle in canvas space.
#[derive(Clone, Copy, Debug)]
pub struct NodeRenderInfo {
    pub canvas_rect: Rect,
}

impl NodeRenderInfo {
    pub fn canvas_center(&self) -> (center: Pos2)
        ensures
            center == rect_center(self.canvas_rect),
    {
        rect_middle(&self.canvas_rect)
    }

    pub fn screen_rect(&self, canvas_state: &CanvasState) -> (rect: Rect)
        ensures
            rect == ts_apply_rect(canvas_state.transform, self.canvas_rect),
    {
        canvas_state.to_screen_rect(self.canvas_rect)
    }
}

/// Where an edge was drawn last: the rectangle around its path.
#[derive(Clone, Copy, Debug)]
pub struct EdgeRenderInfo {
    pub canvas_rect: Rect,
}

/// What the renderer hands to hit-testing and routing: for each node it has
/// drawn, by slot, the rectangle it drew. It is filled while one frame is
/// drawn and read while the next one takes its input, so it may be one frame
/// old; a node that was never drawn is not in it.
pub struct RenderInfoCache {
    pub entries: HashMap<u32, NodeRenderInfo>,
}

impl View for RenderInfoCache {
    type V = Map<u32, NodeRenderInfo>;

    open spec fn view(&self) -> Map<u32, NodeRenderInfo> {
        self.entries@
    }
}

/// Something that is told where a node was drawn.
pub trait NodeObserver {
    fn on_node_changed(&mut self, node_index: u32, render_info: NodeRenderInfo);
}

impl NodeObserver for RenderInfoCache {
    /// Records where the node was drawn; see `RenderInfoCache::record`.
    fn on_node_changed(&mut self, node_index: u32, render_info: NodeRenderInfo)
        ensures
            final(self)@ == old(self)@.insert(node_index, render_info),
    {
        self.record(node_index, render_info);
    }
}

impl RenderInfoCache {
    pub fn new() -> (cache: Self)
        ensures
            cache@ == Map::<u32, NodeRenderInfo>::empty(),
    {
        Self { entries: HashMap::new() }
    }

    /// Records where the node in slot `node_index` was drawn, in place of
    /// what was recorded for it before.
    pub fn record(&mut self, node_index: u32, render_info: NodeRenderInfo)
        ensures
            final(self)@ == old(self)@.insert(node_index, render_info),
    {
        self.entries.insert(node_index, render_info);
    }

    /// Forgets every rectangle.
    pub fn clear(&mut self)
        ensures
            final(self)@ == Map::<u32, NodeRenderInfo>::empty(),
    {
        self.entries.clear();
    }
}

/// The rectangle recorded for the node in slot `node_index`, if it was drawn.
pub fn get_node_render_info(node_index: u32, cache: &RenderInfoCache) -> (info: Option<
    NodeRenderInfo,
>)
    ensures
        info == (if cache@.contains_key(node_index) {
            Some(cache@[node_index])
        } else {
            None
        }),
{
    match cache.entries.get(&node_index) {
        Some(info) => Some(*info),
        None => None,
    }
}

/// The middle of the rectangle recorded for a node that was drawn.
pub fn node_rect_center(node_index: u32, cache: &RenderInfoCache) -> (center: Pos2)
    requires
        cache@.contains_key(node_index),
    ensures
        center == rect_center(cache@[node_index].canvas_rect),
{
    let info = get_node_render_info(node_index, cache);
    match info {
        Some(info) => info.canvas_center(),
        None => vstd::pervasive::unreached(),
    }
}

} // verus!
