[package]
name = "pr47_core"
version = "0.1.0"
edition = "2021"
publish = false

[dependencies]
futures = "0.3"
tokio = { version = "1", features = ["rt", "rt-multi-thread", "sync", "time"] }
unchecked_unwrap = "*"
