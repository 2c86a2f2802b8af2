[package]
name = "wqxemu"
version = "0.1.0"
edition = "2021"
publish = false

[dependencies]
anyhow = "=1.0.104"
clap = { version = "=4.6.7", features = ["derive"] }
env_logger = "=0.11.11"
image = { version = "=0.25.10", default-features = false, features = ["png"] }
log = "=0.4.35"
minifb = "=0.29.0"
