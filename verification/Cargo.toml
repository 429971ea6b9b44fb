[package]
name = "cserunner"
version = "0.1.0"
edition = "2021"
publish = false

[dependencies]
clap = { version = "4", features = ["derive"] }
homedir = "0.2"
rand = "0.8"
serde = { version = "1", features = ["derive"] }
serde_json = "1"
