[package]
name = "socketor"
version = "0.1.0"
edition = "2021"
publish = false

[dependencies]
chrono = { version = "=0.4.45", default-features = false, features = ["now"] }
futures-util = "=0.3.34"
hex = "=0.4.3"
lazy_static = "=1.5.1"
serde = { version = "=1.0.229", features = ["derive"] }
tauri = { version = "2", default-features = false }
tokio = { version = "=1.54.1", features = ["io-util", "macros", "net", "rt", "rt-multi-thread", "sync", "time"] }
tokio-tungstenite = "=0.21.0"
uuid = { version = "=1.29.0", features = ["v4"] }
