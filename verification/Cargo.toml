[package]
name = "zero2prod"
version = "0.1.0"
edition = "2021"
publish = false

[dependencies]
secrecy = "0.8"
uuid = { version = "1", features = ["v4"] }
argon2 = { version = "0.5", features = ["std"] }
actix-web = "4"
actix-web-flash-messages = { version = "0.5", features = ["cookies"] }
serde = { version = "1", features = ["derive"] }
tokio = { version = "1", features = ["macros", "rt-multi-thread"] }
sqlx = { version = "0.8", default-features = false, features = ["runtime-tokio", "postgres", "uuid", "chrono"] }
chrono = { version = "0.4", default-features = false, features = ["clock"] }
anyhow = "1"
thiserror = "1"
