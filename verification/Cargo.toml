[package]
name = "diagram_core"
version = "0.1.0"
edition = "2021"
publish = false

[dependencies]
egui = { version = "0.30", default-features = false }
petgraph = { version = "0.7", default-features = false, features = ["stable_graph"] }
serde = { version = "1", features = ["derive"] }
