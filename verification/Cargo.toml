[package]
name = "fast_chat"
version = "0.1.0"
edition = "2021"
publish = false

[dependencies]
anyhow = "1"
async-stream = "0.3"
bytes = "1"
crossterm = "*"
directories = "*"
futures = "0.3"
ratatui = "*"
reqwest = { version = "0.12", default-features = false, features = ["json", "stream", "rustls-tls"] }
serde = { version = "1", features = ["derive"] }
serde_json = "1"
textwrap = "0.16"
thiserror = "1"
tokio = { version = "1", features = ["rt-multi-thread", "macros", "time"] }
toml = "*"
tracing = "0.1"
tracing-appender = "0.2"
tracing-subscriber = { version = "0.3", features = ["env-filter"] }
twoway = "0.2"
unicode-segmentation = "1"
unicode-width = "*"
