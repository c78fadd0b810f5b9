[package]
name = "black-76"
version = "0.1.0"
edition = "2021"
publish = false

[dependencies]
statrs = { version = "0.18", default-features = false }
serde = { version = "1", features = ["derive"] }
