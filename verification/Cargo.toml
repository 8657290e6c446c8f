[package]
name = "doorcam"
version = "0.1.0"
edition = "2021"
publish = false

[dependencies]
tracing = "=0.1.44"
serde = { version = "=1.0.229", features = ["derive"] }
toml = "=0.8.23"
clap = { version = "=4.6.7", features = ["derive"] }
chrono = "=0.4.45"
chrono-tz = "=0.10.4"
anyhow = "=1.0.104"
tracing-subscriber = { version = "=0.3.23", features = ["env-filter", "json"] }
config = "0.14"
tokio = { version = "1", features = ["rt-multi-thread", "macros", "sync", "time", "signal", "fs", "io-util"] }
tokio-util = "0.7"
crossterm = "0.28"
serde_json = "1"
image = { version = "0.25", default-features = false, features = ["jpeg"] }
imageproc = { version = "0.25", default-features = false }
