[package]
name = "llm_manager"
version = "0.1.0"
edition = "2021"
publish = false

[dependencies]
regex = "=1.13.1"
chrono = { version = "=0.4.45", default-features = false, features = ["clock"] }
crossterm = "=0.28.1"
arboard = { version = "=3.7.0", default-features = false }
reqwest = { version = "=0.12.28", default-features = false }
serde_json = "=1.0.154"
tokio = { version = "=1.54.1", features = ["rt", "macros", "time"] }
local-ip-address = "=0.6.13"
urlencoding = "2"
ratatui = { version = "0.29", default-features = false }
