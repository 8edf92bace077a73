[package]
name = "assistant2"
version = "0.1.0"
edition = "2021"
publish = false

[dependencies]
anyhow = "1.0"
futures = "0.3"
log = "0.4"
nanoid = "0.4"
serde = { version = "1.0", features = ["derive"] }
