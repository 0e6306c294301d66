[package]
name = "database"
version = "0.1.0"
edition = "2021"
publish = false

[dependencies]
sea-orm = { version = "=2.0.4", default-features = false, features = ["macros", "with-json", "sqlx-postgres", "runtime-tokio-rustls", "entity-registry", "schema-sync"] }
serde_json = "=1.0.154"
clap = { version = "=4.6.7", features = ["derive"] }
tokio = { version = "=1.54.1", features = ["macros", "rt-multi-thread"] }
anyhow = "=1.0.104"
dotenvy = "=0.15.7"
log = "=0.4.35"
tracing-subscriber = { version = "=0.3.23", features = ["env-filter"] }
