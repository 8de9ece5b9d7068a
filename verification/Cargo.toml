[package]
name = "kairos"
version = "0.1.0"
edition = "2021"
publish = false

[dependencies]
anyhow = "1"
async-graphql = { version = "*", default-features = false, features = ["playground", "graphiql"] }
async-graphql-axum = "*"
axum = "*"
chrono = { version = "0.4", default-features = false, features = ["clock", "std"] }
config = { version = "*", default-features = false, features = ["toml"] }
dotenvy = "0.15"
futures-util = "0.3"
redis = { version = "*", default-features = false, features = ["tokio-comp"] }
rust_decimal = "1"
serde = { version = "1", features = ["derive"] }
serde_json = "1"
sqlx = { version = "*", default-features = false, features = ["postgres", "runtime-tokio"] }
thiserror = "1"
tokio = { version = "1", features = ["macros", "net", "rt-multi-thread", "signal", "sync", "time"] }
tokio-tungstenite = "*"
tonic = "*"
tower-http = { version = "*", features = ["cors"] }
tracing = "0.1"
tracing-appender = "0.2"
tracing-subscriber = { version = "0.3", features = ["env-filter", "json"] }
uuid = { version = "1", features = ["v4"] }
