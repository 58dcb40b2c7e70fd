[package]
name = "plm"
version = "0.1.0"
edition = "2021"
publish = false

[dependencies]
anyhow = "1"
bytes = "0.5"
futures = "0.3"
futures-timer = "3"
log = "0.4"
pretty_env_logger = "0.4"
prettytable-rs = "0.8"
structopt = "0.3"
thiserror = "1"
tokio = { version = "0.2", features = ["full"] }
tokio-serial = { version = "4.3", default-features = false }
tokio-util = { version = "0.3", features = ["codec"] }
