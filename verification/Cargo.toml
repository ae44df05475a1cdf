[package]
name = "uberlog"
version = "0.1.0"
edition = "2021"
publish = false

[dependencies]
chrono = "0.4"
elf = "0.7"
serde = { version = "1", features = ["derive"] }
serde_yaml = "0.9"
ratatui = "0.29"
serialport = { version = "4", default-features = false }
probe-rs = "*"
tracing = "0.1"
tracing-subscriber = { version = "0.3", features = ["env-filter"] }
color-eyre = "0.6"
tokio = { version = "1", features = ["rt", "rt-multi-thread"] }
