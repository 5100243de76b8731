[package]
name = "halloween_countdown"
version = "0.1.0"
edition = "2021"
publish = false

[dependencies]
chrono = "0.4"
eframe = { version = "0.29", default-features = false, features = ["default_fonts", "glow", "wayland", "x11"] }
