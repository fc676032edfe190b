[package]
name = "servo_core"
version = "0.1.0"
edition = "2021"
publish = false

[dependencies]
chrono = "*"

[dev-dependencies]
serde_json = "*"
