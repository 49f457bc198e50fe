[package]
name = "h5_server"
version = "0.1.0"
edition = "2021"
publish = false

[dependencies]
tokio = { version = "1", features = ["sync", "rt-multi-thread", "net", "macros"] }
local-ip-address = "*"
axum = "*"
tower-http = { version = "*", features = ["cors", "fs"] }
serde = { version = "1", features = ["derive"] }
