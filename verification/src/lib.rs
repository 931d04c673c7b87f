//! The core of a node-link diagram editor.
//!
//! The user pans and zooms an endless canvas, creates, moves and deletes
//! nodes, writes text into them, and joins them with edges that are drawn
//! straight or as cubic curves. This library holds what decides how the
//! editor behaves, and proves it:
//!
//! - `canvas`: the view onto the canvas and the id counters;
//! - `graph`: nodes, edges, the selection, and the rectangles the renderer
//!   drew;
//! - `hit_test`: which node or edge is under the pointer;
//! - `geometry`, `routing`, `curve`, `bezier`: where edges run, how curves
//!   are sampled, and how their anchors are dragged;
//! - `input`: the state machine that turns the input of each frame into
//!   gestures;
//! - `resource`: handles to shared state;
//! - `plane`, `order`, `extent`: the arithmetic on coordinates, all of it
//!   done by `egui`, how coordinates compare, and the lesser and the
//!   greater of two of them.
//!
//! Drawing and reading the input devices are left to the host.
pub mod bezier;
pub mod canvas;
pub mod curve;
pub mod extent;
pub mod geometry;
pub mod graph;
pub mod hit_test;
pub mod input;
pub mod order;
pub mod plane;
pub mod resource;
pub mod routing;
