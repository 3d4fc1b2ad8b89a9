[package]
name = "websockify"
version = "0.1.0"
edition = "2021"
publish = false

[dependencies]
mime_guess = "=2.0.5"
warp = "=0.3.7"
tokio = { version = "=1.53.2", features = ["full"] }
futures = "=0.3.34"
log = "=0.4.34"
pretty_env_logger = "=0.5.0"
clap = "=4.6.7"
rust-embed = "=8.13.0"
tokio-stream = { version = "=0.1.19", features = ["net"] }
thiserror = "=2.0.21"
