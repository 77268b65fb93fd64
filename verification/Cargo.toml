[package]
name = "slide_stainer"
version = "0.1.0"
edition = "2021"
publish = false

[dependencies]
atomic_enum = "*"
gpio = "*"
juniper = "*"
juniper_rocket = "*"
reqwest = { version = "*", default-features = false, features = ["blocking", "json"] }
rocket = "*"
rocket_cors = "*"
serde = { version = "1", features = ["derive"] }
thread-priority = "*"
