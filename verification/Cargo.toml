[package]
name = "relax_check"
version = "0.1.0"
edition = "2021"
publish = false

[dependencies]
scraper = "*"
metrics = "*"
metrics-exporter-prometheus = "*"
reqwest = { version = "*", default-features = false }
tokio = { version = "*", features = ["rt-multi-thread", "macros", "signal", "time"] }
log = "*"
env_logger = "*"
