[package]
name = "record_service"
version = "0.1.0"
edition = "2021"
publish = false

[dependencies]
argon2 = "*"
chrono = "*"
dotenv = "*"
jsonwebtoken = "*"
mongodb = "*"
rocket = { version = "*", features = ["json"] }
serde = { version = "*", features = ["derive"] }
