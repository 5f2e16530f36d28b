[package]
name = "watchtv"
version = "0.1.0"
edition = "2021"
publish = false

[dependencies]
dirs = "6"
futures-util = "0.3"
regex = "1"
reqwest = { version = "0.12", default-features = false, features = ["stream", "rustls-tls"] }
rusqlite = { version = "0.32", features = ["bundled"] }
serde = { version = "1", features = ["derive"] }
tokio = { version = "1", features = ["full"] }
warp = "0.3"
