[package]
name = "pine"
version = "0.1.0"
edition = "2021"
publish = false

[dependencies]
goblin = "*"
libloading = "*"
serde = { version = "1", features = ["derive"] }
serde_json = "1"
thiserror = "*"
tracing = "0.1"
tracing-subscriber = "0.3"
