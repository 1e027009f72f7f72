[package]
name = "launchdarkly-server-sdk"
version = "0.1.0"
edition = "2021"
publish = false

[dependencies]
launchdarkly-server-sdk-evaluation = "=2.0.2"
serde = { version = "=1.0.229", features = ["derive"] }
serde_json = "=1.0.154"
hyper = { version = "=0.14.32", features = ["client", "http1", "http2", "tcp"] }
hyper-rustls = { version = "=0.24.2", features = ["http2"] }
tokio = { version = "=1.54.1", features = ["rt", "macros", "time", "net"] }
futures = "=0.3.34"
reqwest = { version = "=0.11.27", default-features = false }
thiserror = "=1.0.69"
crossbeam-channel = "=0.5.17"
