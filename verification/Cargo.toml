[package]
name = "recipe_service"
version = "0.1.0"
edition = "2021"
publish = false

[dependencies]
actix-cors = "*"
actix-web = "4"
dotenv = "0.15"
env_logger = "*"
firebase-auth = "*"
futures = "0.3"
log = "0.4"
mongodb = "2"
serde = { version = "1", features = ["derive"] }
