[package]
name = "gummy"
version = "0.1.0"
edition = "2021"
publish = false

[dependencies]
cssparser = "*"
serde = { version = "1", features = ["derive"] }
