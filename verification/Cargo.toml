[package]
name = "remote_server"
version = "0.1.0"
edition = "2021"
publish = false

[dependencies]
sysinfo = "*"
anyhow = "*"
fork = "*"
libc = "*"
log = "*"
env_logger = "*"
serde = { version = "*", features = ["derive"] }
serde_json = "*"
smol = "*"
futures = "*"
