[package]
name = "dewpoint"
version = "0.1.0"
edition = "2021"
publish = false

[dependencies]
btleplug = "*"
clap = { version = "4", features = ["derive", "env"] }
env_logger = "*"
futures = "0.3"
log = "0.4"
metrics = "*"
metrics-exporter-prometheus = { version = "*", default-features = false, features = ["http-listener"] }
metrics-util = "*"
tokio = { version = "1", features = ["macros", "rt-multi-thread", "signal", "sync"] }
