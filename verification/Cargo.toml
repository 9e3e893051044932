[package]
name = "mac_explorer"
version = "0.1.0"
edition = "2021"
publish = false

[dependencies]
chrono = { version = "0.4", default-features = false, features = ["std"] }
eframe = { version = "0.29", default-features = false, features = ["default_fonts", "glow", "persistence", "x11"] }
egui = "0.29"
egui_dock = "0.14"
egui_extras = "0.29"
serde = { version = "1", features = ["derive"] }
