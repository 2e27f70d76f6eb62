[package]
name = "rust_rider"
version = "0.1.0"
edition = "2021"
publish = false

[dependencies]
serde_json = "*"
piston_window = "*"
piston2d-graphics = "*"
