[package]
name = "asi_camera"
version = "0.1.0"
edition = "2021"
publish = false

[dependencies]
eframe = { version = "0.27", default-features = false, features = ["glow"] }
egui = { version = "0.27", default-features = false }
egui_plot = { version = "0.27", default-features = false }
env_logger = { version = "0.11", default-features = false }
