[package]
name = "action_gateway"
version = "0.1.0"
edition = "2021"
publish = false

[dependencies]
byteorder = "1"
bytes = "0.4"
futures = "0.1"
serde = { version = "1", features = ["derive"] }
serde_json = "1"
ws = "0.9"
