[package]
name = "tone_mixer"
version = "0.1.0"
edition = "2021"
publish = false

[dependencies]
eframe = { version = "*", default-features = false, features = ["default_fonts", "glow", "x11"] }
egui = { version = "*", default-features = false }
egui_extras = { version = "*", default-features = false }
env_logger = { version = "*", default-features = false }
indexmap = "*"
tinyaudio = "*"
