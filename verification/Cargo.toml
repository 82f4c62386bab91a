[package]
name = "memory_pairs"
version = "0.1.0"
edition = "2021"
publish = false

[dependencies]
fastrand = "*"
axum = { version = "*", features = ["ws"] }
tokio = { version = "*", features = ["rt-multi-thread", "macros", "sync", "time", "net"] }
futures-util = "*"
serde = { version = "*", features = ["derive"] }
serde_json = "*"
ts-rs = "*"
