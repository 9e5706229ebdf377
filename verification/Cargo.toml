[package]
name = "doc_tags"
version = "0.1.0"
edition = "2021"
publish = false

[dependencies]
full_moon = { version = "=3.0.0", features = ["luau"] }
serde = { version = "=1.0.229", features = ["derive"] }
