[package]
name = "termino"
version = "0.1.0"
edition = "2021"
publish = false

[dependencies]
anyhow = "1"
chrono = "0.4"
clap = { version = "4", features = ["derive"] }
crossterm = "0.28"
dirs = "5"
notify-rust = "4"
serde = { version = "1", features = ["derive"] }
serde_json = "1"
