[package]
name = "convo"
version = "0.1.0"
edition = "2021"
publish = false

[dependencies]
jsonwebtoken = { version = "=11.1.0", features = ["rust_crypto"] }
serde_json = "=1.0.151"
serde = { version = "*", features = ["derive"] }
actix = "*"
actix-web = "*"
actix-web-actors = "*"
actix-cors = "*"
futures = "*"
chrono = "*"
log = "*"
env_logger = "*"
dotenv = "*"
