[package]
name = "vidsearch"
version = "0.1.0"
edition = "2021"
publish = false

[dependencies]
anyhow = "1"
clap = { version = "=4.6.7", features = ["derive"] }
crossterm = "=0.27.0"
image = "=0.24.9"
invidious = { version = "=0.7.8", features = ["reqwest_async"] }
ratatui = "=0.24.0"
reqwest = "0.12"
tokio = { version = "=1.53.2", features = ["rt", "rt-multi-thread", "sync", "macros", "time"] }
tokio-util = "=0.7.19"
unicode-width = "=0.1.14"
which = "=4.4.2"
