[package]
name = "senka_panel"
version = "0.1.0"
edition = "2021"
publish = false

[dependencies]
chrono = "=0.4.45"
dashmap = "=6.2.1"
log = "=0.4.35"
env_logger = "=0.11.11"
serde = { version = "=1.0.229", features = ["derive"] }
serde_json = "=1.0.154"
toml = "=0.8.23"
uuid = "=1.29.0"
tokio = { version = "=1.54.1", features = ["rt-multi-thread", "macros", "process", "sync", "time", "io-util", "fs"] }
notify = "=6.1.1"
os_info = { version = "=3.15.0", default-features = false }
once_cell = "=1.21.4"
rocket = { version = "=0.5.2", features = ["json"] }
sea-orm = { version = "=1.1.20", default-features = false, features = ["sqlx-sqlite", "runtime-tokio-rustls", "macros"] }
rocket_ws = "0.1"
