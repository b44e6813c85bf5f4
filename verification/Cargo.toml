[package]
name = "kbdlight"
version = "0.1.0"
edition = "2021"
publish = false

[dependencies]
anyhow = "*"
clap = { version = "*", features = ["derive"] }
evdevil = "*"
log = "*"
serde = { version = "*", features = ["derive"] }
toml = "*"
