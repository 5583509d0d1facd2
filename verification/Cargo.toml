[package]
name = "gitwork"
version = "0.1.0"
edition = "2021"
publish = false

[dependencies]
chrono = "=0.4.45"
octocrab = "=0.41.2"
open = "=5.4.4"
tokio = { version = "1", features = ["rt-multi-thread", "macros"] }
