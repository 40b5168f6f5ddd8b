[package]
name = "md2pdf"
version = "0.1.0"
edition = "2021"
publish = false

[dependencies]
uuid = { version = "1", features = ["v4", "serde"] }
chrono = { version = "0.4", features = ["serde"] }
ring = "0.17"
data-encoding = "2"
amqprs = "1"
tokio = { version = "1", features = ["full"] }
slog = "2"
slog-term = "2"
slog-async = "2"
serde = { version = "1", features = ["derive"] }
serde_json = "1"
rocket = { version = "0.5", features = ["json"] }
dotenvy = "0.15"
dotenv = "0.15"
diesel = { version = "2", features = ["postgres"] }
diesel_migrations = "2"
scopeguard = "1"
snafu = "0.8"
simple-error = "0.3"
async-trait = "0.1"
tracing-subscriber = { version = "0.3", features = ["env-filter"] }
