[package]
name = "math3d"
version = "0.1.0"
edition = "2021"
publish = false

[dependencies]
noise = { version = "0.7", default-features = false }
rand_core = "0.6"
rand_pcg = "0.3"
serde = { version = "1", features = ["derive"] }
