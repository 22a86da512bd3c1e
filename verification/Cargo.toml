[package]
name = "classfi"
version = "0.1.0"
edition = "2021"
publish = false

[dependencies]
anyhow = "1"
clap = { version = "4", features = ["derive", "cargo"] }
clap-verbosity-flag = "*"
crossterm = "*"
etcetera = "*"
futures = "0.3"
libmpv2 = "*"
radiobrowser = "*"
ratatui = "*"
serde_json = "1"
souvlaki = "*"
tca-ratatui = "*"
tokio = { version = "1", features = ["full"] }
tracing = "0.1"
tracing-error = "0.2"
tracing-subscriber = "0.3"
url = "2"
