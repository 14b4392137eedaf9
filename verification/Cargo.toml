[package]
name = "boardtask"
version = "0.1.0"
edition = "2021"
publish = false

[dependencies]
argon2 = "=0.5.3"
rand_core = { version = "=0.6.4", features = ["getrandom"] }
ulid = "=1.2.1"
urlencoding = "=2.1.3"
hex = "=0.4.3"
validator = { version = "=0.18.1", features = ["derive"] }
serde = { version = "=1.0.229", features = ["derive"] }
serde_json = "=1.0.154"
sqlx = { version = "=0.7.4", default-features = false, features = ["sqlite", "runtime-tokio", "macros"] }
axum = "=0.7.9"
axum-extra = { version = "=0.9.6", features = ["cookie"] }
askama = "=0.12.1"
time = "=0.3.55"
tracing = "=0.1.44"
