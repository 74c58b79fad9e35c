[package]
name = "tasktrack"
version = "0.1.0"
edition = "2021"
publish = false

[dependencies]
chrono = "=0.4.45"
axum = "=0.7.9"
serde = { version = "=1.0.229", features = ["derive"] }
sqlx = { version = "=0.8.6", default-features = false, features = ["runtime-tokio", "postgres", "chrono"] }
tokio = { version = "=1.53.2", features = ["macros", "net", "rt-multi-thread"] }
