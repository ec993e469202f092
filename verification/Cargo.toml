[package]
name = "tcp_observer"
version = "0.1.0"
edition = "2021"
publish = false

[dependencies]
anyhow = "*"
aya = { version = "*", features = ["async_tokio"] }
bytes = "*"
chrono = "*"
config = "*"
env_logger = "*"
log = "*"
serde = { version = "*", features = ["derive"] }
sysinfo = "*"
tokio = { version = "*", features = ["macros", "rt-multi-thread", "signal"] }
