[package]
name = "app_host"
version = "0.1.0"
edition = "2021"
publish = false

[dependencies]
poem = { version = "1", features = ["rustls", "static-files"] }
tokio = { version = "1", features = ["rt-multi-thread", "sync", "time", "macros"] }
