[package]
name = "brainfork"
version = "0.1.0"
edition = "2021"
publish = false

[dependencies]
r2d2 = "=0.8.10"
r2d2_sqlite = { version = "=0.35.0", features = ["bundled"] }
uuid = { version = "=1.27.0", features = ["v4"] }

[dev-dependencies]
serde_json = "=1.0.151"
