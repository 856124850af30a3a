[package]
name = "mqlfiddle"
version = "0.1.0"
edition = "2021"
publish = false

[dependencies]
rust-crypto = "0.2"
rand = "*"
serde = { version = "*", features = ["derive"] }
bson = "*"
mongodb = "*"
actix-web = "*"
actix-files = "*"
futures = "*"
env_logger = "*"
