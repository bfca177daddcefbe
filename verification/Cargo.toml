[package]
name = "nymview"
version = "0.1.0"
edition = "2021"
publish = false

[dependencies]
tokio = { version = "1", features = ["sync", "rt-multi-thread", "macros"] }
once_cell = "1"
egui = { version = "*", default-features = false }
eframe = { version = "*", default-features = false, features = ["glow", "default_fonts", "x11"] }
egui_commonmark = { version = "*", default-features = false }
