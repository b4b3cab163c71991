[package]
name = "ray_tracers"
version = "0.1.0"
edition = "2021"
publish = false

[dependencies]
image = { version = "*", default-features = false, features = ["png"] }
rand = "0.8"
rayon = "1"
serde = { version = "1", features = ["derive"] }
serde_yaml = "0.9"
