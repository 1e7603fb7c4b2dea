[package]
name = "gossip"
version = "0.1.0"
edition = "2021"
publish = false

[dependencies]
argon2 = "=0.5.3"
jsonwebtoken = "=9.3.1"
rand = "=0.8.8"
serde_json = "=1.0.154"
serde = { version = "=1.0.229", features = ["derive"] }
axum = "=0.8.9"
tokio = { version = "=1.54.1", features = ["macros", "rt-multi-thread"] }
tower-http = { version = "=0.7.1", features = ["trace"] }
tracing = "=0.1.44"
tracing-subscriber = "=0.3.23"
dotenvy = "=0.15.7"
mail-send = "=0.6.2"
sqlx = { version = "=0.9.0", default-features = false, features = ["postgres", "runtime-tokio"] }
utoipa = "=6.0.0"
utoipa-swagger-ui = { version = "=10.0.2", features = ["axum", "vendored"] }
