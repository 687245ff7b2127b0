[package]
name = "egui_kittest"
version = "0.1.0"
edition = "2021"
publish = false

[dependencies]
chrono = { version = "=0.4.45", default-features = false, features = ["clock", "std"] }
egui = "=0.33.3"
egui_extras = { version = "=0.33.3", default-features = false, features = ["datepicker"] }
egui-wgpu = "=0.33.3"
winit = "=0.30.13"
pollster = "=0.4.0"
serde = { version = "=1.0.229", features = ["derive"] }
