[package]
name = "hello_actix_web"
version = "0.1.0"
edition = "2021"
publish = false

[dependencies]
actix-web = { version = "4", default-features = false, features = ["macros"] }
anyhow = "1"
chrono = { version = "0.4", default-features = false, features = ["clock", "std"] }
config = { version = "0.15", default-features = false, features = ["yaml"] }
rand = "0.9"
reqwest = { version = "0.12", default-features = false, features = ["json"] }
secrecy = { version = "0.10", features = ["serde"] }
serde = { version = "1", features = ["derive"] }
sqlx = { version = "0.8", default-features = false, features = ["postgres", "runtime-tokio", "uuid", "chrono"] }
thiserror = "2"
tokio = { version = "1", features = ["macros", "rt-multi-thread"] }
tracing = "0.1"
tracing-actix-web = "0.7"
uuid = { version = "1", features = ["v4"] }
validator = "0.20"
