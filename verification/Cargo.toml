[package]
name = "tokio_rusqlite"
version = "0.7.0"
edition = "2021"
publish = false

[dependencies]
crossbeam-channel = "0.5"
futures-channel = "0.3"
rusqlite = { version = "*", features = ["bundled"] }
