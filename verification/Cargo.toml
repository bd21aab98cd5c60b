[package]
name = "netdir_core"
version = "0.1.0"
edition = "2021"
publish = false

[dependencies]
rand = "0.8"
serde = { version = "1", features = ["derive"] }
humantime-serde = "1"
thiserror = "1"
directories = "*"
rusqlite = "*"
tor-netdoc = "*"
tor-llcrypto = "*"
tor-protover = "*"
