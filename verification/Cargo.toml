[package]
name = "event_watch"
version = "0.1.0"
edition = "2021"
publish = false

[dependencies]
ethers = { version = "=2.0.14", default-features = false, features = ["rustls", "ws"] }
tokio = { version = "1", default-features = false, features = ["macros", "rt-multi-thread", "time"] }
eyre = "0.6"
serde_json = "1"
