[package]
name = "scruters"
version = "0.1.0"
edition = "2021"
publish = false

[dependencies]
ansi-to-tui = "=6.0.1"
cargo_metadata = "=0.18.1"
color-eyre = "=0.6.5"
crossterm = { version = "=0.28.1", features = ["event-stream"] }
futures = "=0.3.34"
ignore-files = "=3.0.8"
itertools = "=0.13.0"
ratatui = "=0.28.1"
serde = { version = "=1.0.229", features = ["derive"] }
serde_json = "=1.0.154"
tokio = { version = "=1.54.1", features = ["rt-multi-thread", "macros", "process", "io-util", "sync", "time", "signal", "fs"] }
tokio-stream = { version = "=0.1.19", features = ["io-util"] }
tokio-util = "=0.7.20"
tracing = { version = "=0.1.44", features = ["log"] }
tui-logger = "=0.12.1"
watchexec = "=4.1.0"
watchexec-filterer-ignore = "=4.0.1"
