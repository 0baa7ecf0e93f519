[package]
name = "stack_machine"
version = "0.1.0"
edition = "2021"
publish = false

[dependencies]
hex = "0.4"
serde = { version = "1", features = ["derive"] }
serde_json = "1"
dialoguer = "0.11"
serialport = { version = "4", default-features = false }
