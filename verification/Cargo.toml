[package]
name = "sequoia"
version = "0.1.0"
edition = "2021"
publish = false

[dependencies]
egui = "0.20"
egui_dock = "0.3"
egui_glium = "0.20"
glam = "*"
glium = "0.32"
tracing = "0.1"
tracing-subscriber = "0.3"
