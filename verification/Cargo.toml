[package]
name = "forge_runner"
version = "0.1.0"
edition = "2021"
publish = false

[dependencies]
anyhow = "1"
cairo-lang-sierra = "*"
camino = "1"
futures = "0.3"
rand = "0.8.5"
sanitize-filename = "*"
tokio = { version = "1", features = ["rt", "sync"] }
