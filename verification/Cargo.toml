[package]
name = "glcim"
version = "0.1.0"
edition = "2021"
publish = false

[dependencies]
async-recursion = "1"
chrono = { version = "=0.4.45", features = ["serde"] }
config = { version = "0.11", default-features = false, features = ["toml"] }
crossterm = { version = "0.25", features = ["event-stream"] }
derive_builder = "0.9"
dirs = "4"
futures = "0.3"
futures-timer = "3"
gitlab = "=0.1905.0"
itertools = "=0.10.5"
regex = "=1.13.1"
serde = { version = "1", features = ["derive"] }
serde_json = "1"
signal-hook = "0.3"
structopt = "0.3"
thiserror = "1"
tokio = { version = "1", features = ["full"] }
tui = "0.19"
webbrowser = "0.5"
