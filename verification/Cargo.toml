[package]
name = "pebble-rust-2026"
version = "0.1.0"
edition = "2021"
publish = false

[dependencies]
critical-section = "1"
embedded-alloc = "0.6"
serde = { version = "1", features = ["derive"] }
serde_json = "1"
