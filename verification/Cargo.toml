[package]
name = "blackjack"
version = "0.1.0"
edition = "2021"
publish = false

[dependencies]
anyhow = "1"
clap = "4"
dialoguer = "0.11"
rand = "0.9"
serde = { version = "1", features = ["derive"] }
toml = "0.8"
