[package]
name = "error_translator"
version = "0.1.0"
edition = "2021"
publish = false

[dependencies]
accept-language = "=2.0.0"
anyhow = "=1.0.104"
axum = "=0.7.9"
axum-extra = { version = "=0.9.6", features = ["typed-header"] }
dotenv = "=0.15.0"
futures-util = "=0.3.34"
http-body-util = "=0.1.5"
immortal_axum_macro = "=0.3.0"
immortal_axum_utils = "=0.3.0"
mime = "0.3"
redis = { version = "=0.25.5", features = ["tokio-comp"] }
sea-orm = { version = "=0.12.15", features = ["sqlx-postgres", "runtime-tokio-rustls", "macros"] }
sea-orm-migration = { version = "=0.12.15", default-features = false, features = ["sqlx-postgres", "runtime-tokio-rustls"] }
serde = { version = "=1.0.229", features = ["derive"] }
serde_json = "=1.0.154"
string_template = "=0.2.1"
thiserror = "=1.0.69"
tokio = { version = "=1.54.1", features = ["full"] }
tower = { version = "=0.4.13", features = ["util", "timeout", "load-shed", "limit", "make"] }
tower-http = { version = "=0.5.2", features = ["cors", "compression-gzip", "request-id", "trace", "util"] }
tracing = "=0.1.44"
tracing-appender = "=0.2.5"
tracing-subscriber = "=0.3.23"
uuid = { version = "=1.29.0", features = ["v4", "serde"] }
validator = "=0.17.0"
