[package]
name = "glow_bloom"
version = "0.1.0"
edition = "2021"
publish = false

[dependencies]
eframe = { version = "=0.37.0", default-features = false, features = ["glow", "x11", "default_fonts"] }
ab_glyph = "=0.2.32"
env_logger = { version = "=0.11.11", default-features = false }
epaint_default_fonts = "=0.37.0"
