[package]
name = "downloader_cli"
version = "0.1.0"
edition = "2021"
publish = false

[dependencies]
anyhow = "*"
clap = { version = "*", features = ["derive"] }
directories = "*"
futures = "*"
indicatif = "*"
rand = "*"
reqwest = { version = "*", default-features = false, features = ["stream"] }
serde = { version = "*", features = ["derive"] }
tokio = { version = "*", features = ["fs", "io-util", "macros", "rt-multi-thread", "sync", "time"] }
toml = "*"
