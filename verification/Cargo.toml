[package]
name = "portal_scenes"
version = "0.1.0"
edition = "2021"
publish = false

[dependencies]
nannou = "0.19"
nannou_egui = "0.19"
bytemuck = { version = "1", features = ["derive"] }
