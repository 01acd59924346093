[package]
name = "auth_gate"
version = "0.1.0"
edition = "2021"
publish = false

[dependencies]
bcrypt = "=0.19.3"
cookie = { version = "=0.18.2", features = ["secure"] }
rocket = { version = "=0.5.1", features = ["secrets", "json"] }
sqlx = { version = "=0.7.2", default-features = false, features = ["sqlite", "runtime-tokio"] }
rocket_sync_db_pools = { version = "=0.1.0", features = ["sqlite_pool"] }
