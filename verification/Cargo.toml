[package]
name = "freepalette"
version = "0.1.0"
edition = "2021"
publish = false

[dependencies]
fuzzy-matcher = "0.3"
serde = { version = "1", features = ["derive"] }
serde_json = "1"
toml = "*"
directories = "*"
getrandom = "0.3"
clap = { version = "4", features = ["derive"] }
anyhow = "1"
