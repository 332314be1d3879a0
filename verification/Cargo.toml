[package]
name = "enso-build"
version = "0.1.0"
edition = "2021"
publish = false

[dependencies]
anyhow = "=1.0.104"
byte-unit = "=5.2.6"
chrono = "=0.4.45"
clap = { version = "=4.6.7", features = ["derive"] }
futures-util = "=0.3.34"
heck = "=0.5.0"
mime = "=0.3.17"
path-slash = "=0.2.1"
platforms = "=4.2.1"
reqwest = { version = "=0.13.5", features = ["json", "stream"] }
semver = "=1.0.28"
serde = { version = "=1.0.229", features = ["derive"] }
serde_json = "=1.0.154"
serde_yaml = "=0.9.34"
tokio = { version = "=1.54.1", features = ["full"] }
tracing = "=0.1.44"
tracing-subscriber = "=0.3.23"
