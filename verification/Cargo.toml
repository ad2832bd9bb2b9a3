[package]
name = "rtunes"
version = "0.1.1"
edition = "2021"
publish = false

[dependencies]
sha2 = "0.10"
hex = "0.4"
url = "2"
anyhow = "1"
thiserror = "1"
clap = { version = "4", features = ["derive"] }
crossbeam-channel = "0.5"
crossbeam-queue = "0.3"
crossterm = "0.28"
ratatui = "0.29"
dirs = "5"
dunce = "1"
shellexpand = "3"
lofty = "0.22"
rustfft = "6"
noise = "0.9"
serde = { version = "1", features = ["derive"] }
serde_yaml = "0.9"
tracing = "0.1"
tracing-appender = "0.2"
tracing-subscriber = { version = "0.3", features = ["env-filter"] }
ureq = "2"
