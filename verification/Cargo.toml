[package]
name = "fractal_view"
version = "0.1.0"
edition = "2021"
publish = false

[dependencies]
anyhow = "=1.0.104"
eframe = { version = "=0.32.3", default-features = false, features = ["glow", "x11"] }
egui = { version = "=0.32.3", default-features = false }
egui_glow = { version = "=0.32.3", default-features = false }
glow = "=0.16.0"
log = "*"
