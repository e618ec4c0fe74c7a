[package]
name = "crowbar"
version = "0.1.0"
edition = "2021"
publish = false

[dependencies]
serde_json = "1"
serde = { version = "1", features = ["derive"] }
toml = "0.8"
async-channel = "2"
futures-util = "0.3"
tokio = { version = "1", features = ["rt", "sync", "time", "net"] }
zbus = { version = "4", default-features = false, features = ["tokio"] }
