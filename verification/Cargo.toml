[package]
name = "fervim"
version = "0.1.0"
edition = "2021"

[dependencies]
crossterm = "0.27"
dirs = "5"
serde = { version = "1", features = ["derive"] }
toml = "0.8"
