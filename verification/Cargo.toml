[package]
name = "shared_clipboard"
version = "0.1.0"
edition = "2021"
publish = false

[dependencies]
arboard = "=3.6.1"
base64 = "=0.23.1"
dirs = "=7.0.0"
futures-util = "=0.3.34"
reqwest = { version = "=0.12.28", default-features = false, features = ["json", "rustls-tls"] }
serde = { version = "=1.0.229", features = ["derive"] }
serde_json = "=1.0.151"
tokio = { version = "=1.53.2", features = ["full"] }
tokio-tungstenite = "=0.30.0"
url = "=2.5.8"
warp = { version = "=0.4.3", features = ["server", "websocket"] }
wl-clipboard-rs = "=0.9.4"
