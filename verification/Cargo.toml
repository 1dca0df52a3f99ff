[package]
name = "chat_export"
version = "0.1.0"
edition = "2021"
publish = false

[dependencies]
md5 = "*"
roxmltree = "*"
chrono = "*"
anyhow = "*"
clap = { version = "*", features = ["derive"] }
indicatif = "*"
async-std = { version = "*", features = ["attributes"] }
sqlx = { version = "*", default-features = false, features = ["runtime-async-std", "sqlite"] }
