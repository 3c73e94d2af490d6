[package]
name = "alumnos"
version = "0.1.0"
edition = "2021"
publish = false

[dependencies]
chrono = "*"
validator = "*"
serde = { version = "*", features = ["derive"] }
sqlx = { version = "*", default-features = false, features = ["mysql", "runtime-tokio"] }
tokio = { version = "*", features = ["rt-multi-thread", "macros"] }
axum = "*"
