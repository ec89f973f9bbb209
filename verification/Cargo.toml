[package]
name = "osmium"
version = "0.1.0"
edition = "2021"
publish = false

[dependencies]
serde = { version = "=1.0.229", features = ["derive"] }
nalgebra = "0.33"
rapier3d = "=0.26.1"
winit = "=0.28.7"
vulkano = "=0.34.2"
