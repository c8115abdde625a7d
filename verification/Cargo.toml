[package]
name = "virtual_pet"
version = "0.1.0"
edition = "2021"
publish = false

[dependencies]
eframe = { version = "*", default-features = false, features = ["persistence", "glow", "x11", "default_fonts"] }
egui = "*"
serde = { version = "*", features = ["derive"] }
