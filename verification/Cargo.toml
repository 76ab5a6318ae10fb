[package]
name = "book_manager"
version = "0.1.0"
edition = "2021"
publish = false

[dependencies]
anyhow = "=1.0.104"
async-trait = "=0.1.92"
axum = "=0.7.9"
axum-extra = { version = "=0.9.6", features = ["typed-header"] }
bcrypt = "=0.15.1"
chrono = { version = "=0.4.45", features = ["serde"] }
email_address = "=0.2.9"
garde = { version = "=0.23.0", features = ["derive", "email"] }
redis = { version = "=1.8.0", features = ["tokio-comp"] }
serde = { version = "=1.0.229", features = ["derive"] }
sqlx = { version = "=0.8.6", default-features = false, features = ["runtime-tokio", "postgres", "uuid", "chrono"] }
thiserror = "=1.0.69"
tokio = { version = "=1.54.1", features = ["full"] }
tower-http = { version = "=0.5.2", features = ["cors", "trace"] }
tracing = "=0.1.44"
tracing-subscriber = { version = "=0.3.23", features = ["env-filter", "json"] }
uuid = { version = "=1.29.0", features = ["v4", "serde"] }
