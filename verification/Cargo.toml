[package]
name = "agentscommander"
version = "0.1.0"
edition = "2021"
publish = false

[dependencies]
serde_json = "=1.0.154"
uuid = { version = "=1.29.0", features = ["v4"] }
sha2 = "=0.10.9"
clap = { version = "=4.6.7", features = ["derive"] }
serde = { version = "=1.0.229", features = ["derive"] }
chrono = "=0.4.45"
serde_yaml = "0.9"
