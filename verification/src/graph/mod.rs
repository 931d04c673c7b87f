pub mod anchor;
pub mod edge;
pub mod graph_impl;
pub mod node;
pub mod render_info;
pub mod selection;
pub mod store;
