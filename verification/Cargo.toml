[package]
name = "quiz_report"
version = "0.1.0"
edition = "2021"
publish = false

[dependencies]
eframe = { version = "*", default-features = false, features = ["default_fonts", "glow", "wayland", "x11"] }
rfd = "*"
