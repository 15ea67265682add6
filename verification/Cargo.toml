[package]
name = "subscription"
version = "0.1.0"
edition = "2021"
publish = false

[dependencies]
clap = { version = "=4.6.7", features = ["derive"] }
multiversx-sc = "=0.66.2"
multiversx-sc-snippets = "=0.66.2"
serde = { version = "=1.0.229", features = ["derive"] }
toml = "=0.8.23"
