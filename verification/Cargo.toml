[package]
name = "libtetris"
version = "0.1.0"
edition = "2021"
publish = false

[dependencies]
serde = { version = "1", features = ["derive"] }
enumset = "1"
enum-map = "*"
rand = "0.7"
