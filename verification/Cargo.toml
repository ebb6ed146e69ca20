[package]
name = "feddit_archivieren"
version = "0.1.0"
edition = "2021"
publish = false

[dependencies]
clap = { version = "*", features = ["derive"] }
daemonize = "*"
git2 = { version = "*", default-features = false }
toml = "*"
users = "*"
