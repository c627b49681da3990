[package]
name = "bpmbeats"
version = "0.1.0"
edition = "2021"
publish = false

[dependencies]
rand = "=0.8.8"
reqwest = { version = "=0.13.5", default-features = false, features = ["form"] }
rppal = "*"
serde = { version = "*", features = ["derive"] }
serde_json = "*"
thiserror = "*"
tokio = { version = "*", features = ["rt-multi-thread", "macros", "sync"] }
