[package]
name = "crabdrive_server"
version = "0.1.0"
edition = "2021"
publish = false

[dependencies]
anyhow = "=1.0.104"
argon2 = "0.5"
async-trait = "=0.1.92"
axum = "=0.8.9"
axum-extra = { version = "=0.10.3", features = ["typed-header", "cookie"] }
bytes = "=1.12.1"
chrono = { version = "=0.4.45", features = ["serde"] }
clap = { version = "=4.6.7", features = ["cargo"] }
confique = { version = "=0.4.0", features = ["toml"] }
dashmap = "=6.2.1"
diesel = { version = "=2.3.14", features = ["sqlite", "chrono", "r2d2", "returning_clauses_for_sqlite_3_35"] }
diesel_migrations = { version = "=2.3.2", features = ["sqlite"] }
dotenvy = "=0.15.7"
formatx = "=0.2.4"
http-body-util = "=0.1.5"
jsonwebtoken = "=9.3.1"
libsqlite3-sys = { version = "=0.38.2", features = ["bundled"] }
moka = { version = "=0.12.16", features = ["future"] }
nanoid = "=0.4.0"
rand = "0.8"
serde = { version = "=1.0.229", features = ["derive"] }
serde_json = "=1.0.154"
tempfile = "=3.27.0"
thiserror = "=2.0.21"
tokio = { version = "=1.54.1", features = ["full"] }
tower-http = { version = "=0.6.11", features = ["cors", "catch-panic"] }
tracing = "=0.1.44"
tracing-appender = "=0.2.5"
tracing-subscriber = { version = "=0.3.23", features = ["json"] }
uuid = { version = "=1.29.1", features = ["v4", "serde"] }
