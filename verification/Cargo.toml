[package]
name = "system_repair_toolkit"
version = "1.0.0"
edition = "2021"
publish = false

[dependencies]
anyhow = "1"
colored = "2"
env_logger = "0.10"
indicatif = "0.17"
log = "0.4"
serde = { version = "1", features = ["derive"] }
sysinfo = { version = "0.30", default-features = false }
thiserror = "1"
tokio = { version = "1", features = ["rt-multi-thread", "macros", "time"] }
toml = "0.8"
