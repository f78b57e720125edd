[package]
name = "text_analysis_tool"
version = "0.1.0"
edition = "2021"
publish = false

[dependencies]
egui = "=0.31.1"
egui_extras = "=0.31.1"
serde = { version = "*", features = ["derive"] }
