[package]
name = "egui_layer_shell"
version = "0.1.0"
edition = "2021"
publish = false

[dependencies]
bytemuck = "=1.25.2"
egui = { version = "=0.34.3", default-features = false }
egui_software_backend = { version = "=0.0.3", default-features = false, features = ["std"] }
smithay-client-toolkit = "=0.20.0"
wayland-client = "=0.31.15"
