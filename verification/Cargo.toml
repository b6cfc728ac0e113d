[package]
name = "onlyprox"
version = "0.1.0"
edition = "2021"
publish = false

[dependencies]
base64 = "=0.22.1"
url = "=2.5.8"
serde = { version = "=1.0.229", features = ["derive"] }
serde_json = "=1.0.154"
tokio = { version = "=1.54.1", features = ["full"] }
reqwest = { version = "=0.12.28", default-features = false, features = ["rustls-tls", "stream"] }
futures-util = "=0.3.34"
sysproxy = "=0.3.0"
egui = { version = "0.27", default-features = false }
image = { version = "0.25", default-features = false, features = ["png"] }
