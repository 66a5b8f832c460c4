[package]
name = "custom_frame"
version = "0.1.0"
edition = "2021"

[dependencies]
egui = { version = "0.27", default-features = false }
