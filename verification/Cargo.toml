[package]
name = "fyai"
version = "0.1.0"
edition = "2021"
publish = false

[dependencies]
clap = "4"
clipboard = "0.5"
dirs = "5"
ignore = "0.4"
serde = { version = "1", features = ["derive"] }
serde_yaml = "0.9"
walkdir = "2"

[dev-dependencies]
tempfile = "3"
