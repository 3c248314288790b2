[package]
name = "bulk_fetch"
version = "0.1.0"
edition = "2021"
publish = false

[dependencies]
chrono = "0.4"
clap = { version = "4", features = ["derive"] }
env_logger = "0.11"
fs_extra = "1"
log = "0.4"
uuid = { version = "1", features = ["v4"] }
which = "*"
