[package]
name = "fcm_client"
version = "0.1.0"
edition = "2021"
publish = false

[dependencies]
google-authz = { version = "=0.0.2", features = ["client"] }
hyper = { version = "=0.14.32", features = ["client", "http1", "http2", "tcp"] }
hyper-rustls = "=0.22.1"
serde = "=1.0.229"
serde_json = "=1.0.151"

[dev-dependencies]
tokio = { version = "1", features = ["rt"] }
