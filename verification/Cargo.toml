[package]
name = "local_transcriber"
version = "0.1.0"
edition = "2021"
publish = false

[dependencies]
cpal = "0.15"
enigo = "0.2"
futures-util = "0.3"
serde = { version = "1", features = ["derive"] }
serde_json = "1"
tokio = { version = "1", features = ["macros", "rt-multi-thread", "sync", "time"] }
tokio-tungstenite = { version = "0.24", features = ["rustls-tls-webpki-roots"] }
