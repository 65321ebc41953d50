[package]
name = "input_portal"
version = "0.1.0"
edition = "2021"
publish = false

[dependencies]
serde = { version = "1", features = ["derive"] }
serde_json = "1"
tokio = { version = "1", features = ["sync", "rt-multi-thread", "macros"] }
rocket = { version = "0.5", features = ["json"] }
port_check = "*"
rdev = "*"
