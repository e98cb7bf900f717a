[package]
name = "dotfiles"
version = "0.1.0"
edition = "2021"
publish = false

[dependencies]
ansi_term = "0.12"
anyhow = "1"
directories-next = "2"
serde = { version = "1", features = ["derive"] }
serde_yaml = "0.8"
structopt = "0.3"
