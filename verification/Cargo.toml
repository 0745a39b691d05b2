[package]
name = "neon_gfx"
version = "0.1.0"
edition = "2021"
publish = false

[dependencies]
ash = "*"
bytemuck = "*"
chrono = "*"
openxr = { version = "*", default-features = false, features = ["loaded"] }
