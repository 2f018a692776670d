[package]
name = "seabird_proxy"
version = "0.1.0"
edition = "2021"
publish = false

[dependencies]
anyhow = "=1.0.104"
dotenv = "=0.15.0"
futures = "=0.3.34"
log = "=0.4.34"
pretty_env_logger = "=0.5.0"
seabird = { version = "=0.2.0-alpha.4", default-features = false }
serde = { version = "=1.0.229", features = ["derive"] }
serde_json = "=1.0.154"
tokio = { version = "=1.54.1", features = ["fs", "io-util", "macros", "rt-multi-thread", "signal", "sync"] }
tokio-stream = "=0.1.19"
