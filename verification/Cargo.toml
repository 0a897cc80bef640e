[package]
name = "rorm_lib"
version = "0.1.0"
edition = "2021"
publish = false

[dependencies]
chrono = "=0.4.45"
env_logger = "=0.10.2"
futures = "=0.3.34"
rorm-db = { version = "=0.9.1", features = ["all-driver", "tokio"] }
tokio = { version = "=1.54.1", features = ["rt-multi-thread"] }
