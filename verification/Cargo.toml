[package]
name = "easy_motion"
version = "0.1.0"
edition = "2021"
publish = false

[dependencies]
schemars = "1"
serde = { version = "1", features = ["derive"] }
