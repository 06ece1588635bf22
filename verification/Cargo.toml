[package]
name = "med_timer"
version = "0.1.0"
edition = "2021"
publish = false

[dependencies]
chrono = "*"
uuid = { version = "*", features = ["v4"] }
actix-web = "*"
sqlx = { version = "*", features = ["sqlite", "runtime-tokio"] }
log = "*"
env_logger = "*"
dotenv = "*"
anyhow = "*"
serde = { version = "*", features = ["derive"] }
