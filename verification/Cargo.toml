[package]
name = "social_api"
version = "0.1.0"
edition = "2021"
publish = false

[dependencies]
actix-cors = "0.7"
actix-multipart = "0.7"
actix-web = { version = "4", features = ["cookies", "macros"] }
anyhow = "1"
argon2 = { version = "0.5", features = ["std"] }
async-graphql = { version = "7", features = ["dataloader"] }
async-graphql-actix-web = "7"
async-trait = "0.1"
chrono = { version = "0.4", features = ["serde"] }
dotenvy = "0.15"
env_logger = "0.11"
jsonwebtoken = "9"
serde = { version = "1", features = ["derive"] }
serde_json = { version = "1", features = ["preserve_order"] }
sqlx = { version = "0.7", default-features = false, features = ["postgres", "runtime-tokio", "uuid", "chrono", "macros"] }
tokio = { version = "1", features = ["rt", "macros"] }
uuid = { version = "1", features = ["v4", "serde"] }
