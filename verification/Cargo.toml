[package]
name = "ecaptureq"
version = "0.1.0"
edition = "2021"
publish = false

[dependencies]
polars = { version = "=0.41.3", default-features = false, features = ["sql", "lazy"] }
sha2 = "=0.11.0"
hex = "=0.4.3"
tokio = { version = "=1.53.2", features = ["rt-multi-thread", "macros", "sync", "time", "signal", "process", "io-util"] }
tokio-tungstenite = "=0.30.0"
futures-util = "=0.3.34"
serde = { version = "=1.0.229", features = ["derive"] }
serde_json = "=1.0.151"
anyhow = "=1.0.104"
nix = { version = "=0.31.3", features = ["signal", "process"] }
