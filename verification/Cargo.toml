[package]
name = "cart_token"
version = "0.1.0"
edition = "2021"
publish = false

[dependencies]
jsonwebtoken = { version = "=11.1.0", features = ["rust_crypto"] }
chrono = "=0.4.45"
serde = { version = "*", features = ["derive"] }
serde_json = "*"
actix-web = "*"
actix-cors = "*"
env_logger = "*"
dotenv = "*"
