[package]
name = "linkd"
version = "0.1.0"
edition = "2021"
publish = false

[dependencies]
serde_json = "1"
walkdir = "2"
clap = { version = "4", features = ["derive"] }
anyhow = "1"
chrono = "0.4"
