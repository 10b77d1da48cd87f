[package]
name = "ducker"
version = "0.1.0"
edition = "2021"
publish = false

[dependencies]
cpal = "*"
crossbeam-channel = "*"
eframe = { version = "*", default-features = false, features = ["default_fonts", "glow", "x11", "persistence"] }
egui = "*"
serde = { version = "*", features = ["derive"] }
