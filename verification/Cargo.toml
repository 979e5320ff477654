[package]
name = "whirlwind"
version = "0.1.0"
edition = "2021"
publish = false

[dependencies]
ansi_term = "0.12"
anyhow = "1"
clap = { version = "3.2", features = ["derive"] }
dialoguer = "0.10"
serde = { version = "1", features = ["derive"] }
toml = "0.5"
