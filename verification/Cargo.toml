[package]
name = "erc1155_mirror"
version = "0.1.0"
edition = "2021"
publish = false

[dependencies]
sled = "=0.34.7"
sp-crypto-hashing = "=0.1.0"
hex = "=0.4.3"
tokio = { version = "=1.53.2", features = ["rt-multi-thread", "sync", "time", "macros"] }
clap = { version = "=4.6.7", features = ["derive"] }
