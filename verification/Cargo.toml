[package]
name = "data_parser"
version = "0.1.0"
edition = "2021"
publish = false

[dependencies]
serde_json = "1"
full_moon = "*"
clap = { version = "4", features = ["derive"] }
anyhow = "1"
