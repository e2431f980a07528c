[package]
name = "fractal_core"
version = "0.1.0"
edition = "2021"
publish = false

[dependencies]
bytemuck = { version = "1", features = ["derive"] }
cgmath = "0.18"
env_logger = { version = "0.11", default-features = false }
iced_core = { version = "0.12", default-features = false }
log = "0.4"
