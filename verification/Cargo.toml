[package]
name = "lethe"
version = "0.1.0"
edition = "2021"
publish = false

[dependencies]
chrono = { version = "0.4", features = ["serde"] }
clap = { version = "4", features = ["derive"] }
serde = { version = "1", features = ["derive"] }
thiserror = "*"
toml = "*"
uuid = { version = "1", features = ["v4", "serde"] }
