[package]
name = "bilistream"
version = "0.1.0"
edition = "2021"
publish = false

[dependencies]
prettyish-html = "=0.1.1"
regex = "=1.13.1"
reqwest = { version = "=0.11.27", default-features = false, features = ["json", "cookies", "rustls-tls"] }
reqwest-middleware = "=0.2.5"
reqwest-retry = "=0.2.3"
retry-policies = "=0.1.2"
serde_json = "=1.0.154"
tokio = { version = "=1.54.1", features = ["full"] }
tracing = "=0.1.44"
tracing-subscriber = "=0.3.23"
