[package]
name = "run_this"
version = "0.1.0"
edition = "2021"
publish = false

[dependencies]
which = "*"
colored = "*"
serde = { version = "1", features = ["derive"] }
serde_json = "1"
