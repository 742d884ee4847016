[package]
name = "format_core"
version = "0.1.0"
edition = "2021"
publish = false

[dependencies]
axum = "*"
futures = "*"
reqwest = { version = "*", default-features = false }
tempfile = "*"
tokio = { version = "*", features = ["rt-multi-thread", "macros", "time", "net", "sync"] }
