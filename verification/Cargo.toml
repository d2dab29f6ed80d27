[package]
name = "minecraft-stats"
version = "0.1.0"
edition = "2021"
publish = false

[dependencies]
uuid = "1"
serde = { version = "1", features = ["derive"] }
serde_json = "1"
tokio = { version = "1", features = ["macros", "rt-multi-thread", "sync", "fs", "net", "time"] }
axum = "0.8"
tower-http = { version = "0.6", features = ["cors"] }
sea-orm = { version = "1", default-features = false, features = ["macros", "sqlx-sqlite", "runtime-tokio-rustls"] }
sea-orm-migration = { version = "1", default-features = false }
async-graphql = "7"
async-graphql-axum = "7"
reqwest = { version = "0.12", default-features = false, features = ["json", "rustls-tls"] }
utoipa = "5"
utoipa-swagger-ui = { version = "9", features = ["axum", "vendored"] }
notify-debouncer-mini = "0.6"
futures = "0.3"
log = "0.4"
env_logger = "0.11"
dotenvy = "0.15"
anyhow = "1"
