[package]
name = "redengine"
version = "0.1.0"
edition = "2021"
publish = false

[dependencies]
eframe = { version = "0.32", default-features = false, features = ["default_fonts", "glow", "persistence", "wayland", "x11"] }
egui = "0.32"
egui_dock = "0.17"
egui_extras = "0.32"
egui-file-dialog = "0.11"
egui-phosphor = "0.10"
lazy_static = "1"
pyo3 = { version = "0.22", features = ["gil-refs"] }
serde = { version = "1", features = ["derive"] }
