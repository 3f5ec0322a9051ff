[package]
name = "scylla_items"
version = "0.1.0"
edition = "2021"
publish = false

[dependencies]
anyhow = "=1.0.104"
base64 = "0.22"
futures = "=0.3.34"
hyper = { version = "=0.14.32", features = ["server", "http1", "tcp", "runtime"] }
rustls = "=0.23.46"
rustls-pemfile = "=2.2.0"
scylla = { version = "=1.9.0", features = ["rustls-023"] }
serde = { version = "=1.0.229", features = ["derive"] }
serde_json = "=1.0.154"
tokio = { version = "=1.54.1", features = ["full"] }
url = "=2.5.8"
uuid = { version = "=1.29.0", features = ["serde"] }
