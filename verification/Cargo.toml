[package]
name = "middleware"
version = "0.1.0"
edition = "2021"
publish = false

[dependencies]
hyper = { version = "0.14", features = ["http1", "server", "tcp"] }
tower = "0.4"
tokio = { version = "1", features = ["rt-multi-thread", "macros", "time", "net"] }
futures = "0.3"
log = "0.4"
env_logger = "0.11"
