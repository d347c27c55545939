[package]
name = "noah_desktop"
version = "0.1.0"
edition = "2021"
publish = false

[dependencies]
serde = { version = "1", features = ["derive"] }
serde_json = "1"
chrono = "0.4"
reqwest = { version = "0.12", default-features = false, features = ["json"] }
tokio = { version = "1", features = ["rt-multi-thread", "macros", "time", "process", "sync", "net"] }
uuid = { version = "1", features = ["v4"] }
rand = "0.8"
hostname = "0.4"
local-ip-address = "0.6"
anyhow = "1"
async-trait = "0.1"
