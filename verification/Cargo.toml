[package]
name = "servidor_rust_simple"
version = "0.1.0"
edition = "2021"
publish = false

[dependencies]
url = "2"
serde_json = "1"
tokio = { version = "1", features = ["time", "rt", "macros"] }
tokio-tungstenite = "*"
futures-util = { version = "0.3", features = ["sink"] }
tauri = { version = "2", default-features = false }
tauri-plugin-log = "2"
log = "0.4"
