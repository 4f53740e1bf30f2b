[package]
name = "recipe-server"
version = "0.1.0"
edition = "2021"
publish = false

[dependencies]
askama = "*"
axum = "*"
clap = { version = "*", features = ["derive"] }
log = "*"
mime = "*"
serde = { version = "*", features = ["derive"] }
serde_json = "*"
sqlx = { version = "*", default-features = false, features = ["runtime-tokio", "sqlite", "migrate"] }
thiserror = "*"
tokio = { version = "*", features = ["macros", "net", "rt-multi-thread", "sync"] }
tower-http = { version = "*", features = ["fs", "trace"] }
tracing = "*"
tracing-subscriber = { version = "*", features = ["env-filter"] }
utoipa = "*"
utoipa-axum = "*"
