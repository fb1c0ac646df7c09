[package]
name = "stabil_api"
version = "0.1.0"
edition = "2021"
publish = false

[dependencies]
scraper = "*"
serde = { version = "1", features = ["derive"] }
serde_json = "1"
serde_with = "*"
chrono = "*"
axum = "*"
tokio = { version = "1", features = ["macros", "rt-multi-thread", "net"] }
reqwest = { version = "*", default-features = false, features = ["multipart", "rustls-tls"] }
utoipa = { version = "*", features = ["axum_extras"] }
utoipa-swagger-ui = { version = "*", features = ["axum", "vendored"] }
yaz-rs = "*"
