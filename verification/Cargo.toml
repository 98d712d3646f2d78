[package]
name = "people_service"
version = "0.1.0"
edition = "2021"
publish = false

[dependencies]
chrono = "*"
actix-web = "*"
actix-cors = "*"
sqlx = { version = "*", default-features = false, features = ["postgres", "runtime-tokio", "chrono"] }
serde = { version = "*", features = ["derive"] }
serde_json = "*"
slog = "*"
slog-term = "*"
slog-async = "*"
dotenv = "*"
env_logger = "*"
