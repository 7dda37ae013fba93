[package]
name = "netmanager"
version = "0.1.0"
edition = "2021"
publish = false

[dependencies]
dashmap = "*"
rand = "*"
pnet = "*"
tokio = { version = "*", features = ["rt-multi-thread", "sync", "time", "macros"] }
default-net = "*"
ipnetwork = "*"
anyhow = "*"
once_cell = "*"
serde = { version = "*", features = ["derive"] }
