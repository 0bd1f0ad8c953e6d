[package]
name = "role_sync"
version = "0.1.0"
edition = "2021"
publish = false

[dependencies]
dotenv = "=0.15.0"
serenity = { version = "=0.12.5", default-features = false, features = ["builder", "client", "gateway", "http", "model", "rustls_backend", "utils"] }
sqlx = { version = "=0.7.4", default-features = false, features = ["migrate", "runtime-tokio", "sqlite"] }
tokio = { version = "=1.54.1", features = ["macros", "rt-multi-thread"] }
