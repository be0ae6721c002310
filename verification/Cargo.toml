[package]
name = "session_bridge"
version = "0.1.0"
edition = "2021"
publish = false

[dependencies]
serde_json = "1"
tokio = { version = "1", features = ["sync", "net", "rt", "rt-multi-thread", "macros", "time"] }
serde = { version = "1", features = ["derive"] }
futures-util = "0.3"
tokio-tungstenite = "0.24"
reqwest = { version = "0.12", default-features = false, features = ["json"] }
chrono = "0.4"
enigo = "0.2"
