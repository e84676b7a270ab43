[package]
name = "collection_meta_ops"
version = "0.1.0"
edition = "2021"
publish = false

[dependencies]
serde = { version = "1", features = ["derive"] }
schemars = "0.8"
validator = { version = "0.16", features = ["derive"] }
