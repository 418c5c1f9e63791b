[package]
name = "mmo"
version = "0.1.0"
edition = "2021"
publish = false

[dependencies]
bincode = "1"
chrono = "0.4"
rand = "0.7"
serde = { version = "1", features = ["derive"] }
tokio = { version = "0.2", features = ["full"] }
mio = "0.6"
