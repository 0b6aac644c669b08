[package]
name = "semaphore_db"
version = "0.1.0"
edition = "2021"
publish = false

[dependencies]
sled = "0.34"
bcrypt = "*"
chrono = "0.4"
serde = { version = "1", features = ["derive"] }
serde_json = "1"
sqlx = { version = "0.8", default-features = false, features = ["postgres", "runtime-tokio", "chrono", "json"] }
async-trait = "*"
