[package]
name = "azure_speech"
version = "0.1.0"
edition = "2021"
publish = false

[dependencies]
hound = "=3.5.1"
url = "=2.5.8"
serde = { version = "=1.0.229", features = ["derive"] }
serde_json = "=1.0.154"
tokio = { version = "=1.54.1", features = ["rt", "sync", "macros"] }
tokio-stream = "=0.1.19"
tokio-websockets = { version = "=0.13.3", features = ["client", "sha1_smol", "fastrand"] }
uuid = { version = "=1.29.1", features = ["v4"] }
futures-util = { version = "=0.3.34", features = ["sink"] }
