[package]
name = "rustlang_rocket_mongodb"
version = "0.1.0"
edition = "2021"
publish = false

[dependencies]
argon2 = "0.5"
chrono = "0.4"
dotenv = "0.15"
jsonwebtoken = "9"
mongodb = "2"
rocket = { version = "0.5", features = ["json"] }
serde = { version = "1", features = ["derive"] }
serde_json = "1"
serde_with = "3"
