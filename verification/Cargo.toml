[package]
name = "dotme"
version = "0.1.0"
edition = "2021"
publish = false

[dependencies]
anyhow = "1"
clap = { version = "4", features = ["derive"] }
dialoguer = "0.11"
directories = "5"
git2 = { version = "0.18", default-features = false }
memchr = "2"
thiserror = "1"
toml = "0.8"
which = "6"
