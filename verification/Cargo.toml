[package]
name = "app_base"
version = "0.1.0"
edition = "2021"
publish = false

[dependencies]
clap = { version = "4", features = ["derive"] }
dirs = "*"
libc = "0.2"
serde = { version = "1", features = ["derive"] }
thiserror = "*"
tokio = { version = "1", features = ["rt", "signal", "sync", "macros"] }
toml = "*"
tracing = "0.1"
