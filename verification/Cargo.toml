[package]
name = "index_watch"
version = "0.1.0"
edition = "2021"
rust-version = "1.95"
publish = false

[dependencies]
serde_json = "=1.0.154"
git2 = "=0.21.0"
tokio = { version = "=1.54.1", features = ["rt-multi-thread", "macros", "sync", "time", "signal"] }
teloxide = "=0.17.0"
takecell = "=0.1.1"
tokio-postgres = "=0.7.18"
log = "=0.4.34"
simple_logger = "=5.2.0"
