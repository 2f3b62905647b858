[package]
name = "tile_engine"
version = "0.1.0"
edition = "2021"
publish = false

[dependencies]
chrono = { version = "0.4", default-features = false, features = ["clock"] }
image = { version = "0.24", default-features = false, features = ["png"] }
glium = "0.32"
nalgebra = "0.32"
ron = "0.8"
serde = { version = "1", features = ["derive"] }
toml = "0.8"
