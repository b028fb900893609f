[package]
name = "tcprobe"
version = "0.1.0"
edition = "2021"
publish = false

[dependencies]
anyhow = "1"
chrono = "0.4"
env_logger = "*"
humantime = "2"
log = "0.4"
structopt = "0.3"
