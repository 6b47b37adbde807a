[package]
name = "gear_ledger"
version = "0.1.0"
edition = "2021"
publish = false

[dependencies]
argon2 = "=0.5.3"
axum = "=0.7.9"
axum-extra = { version = "=0.9.6", features = ["typed-header"] }
chrono = { version = "=0.4.45", features = ["serde"] }
diesel = { version = "=2.2.12", default-features = false, features = ["postgres_backend", "chrono", "serde_json"] }
diesel-async = { version = "=0.5.2", features = ["postgres", "deadpool", "async-connection-wrapper"] }
diesel_migrations = "=2.2.0"
futures-util = { version = "=0.3.34", features = ["async-await-macro"] }
jwt-simple = { version = "=0.12.17", default-features = false, features = ["pure-rust"] }
mime_guess = "=2.0.5"
rand = "=0.8.8"
rust-embed = { version = "=8.13.0", features = ["interpolate-folder-path"] }
schemars = "=0.8.22"
serde = { version = "=1.0.229", features = ["derive"] }
serde_json = "=1.0.154"
thiserror = "=1.0.69"
tokio = { version = "=1.54.1", features = ["rt-multi-thread", "macros"] }
tracing = "=0.1.44"
ts-rs = { version = "=9.0.1", features = ["chrono-impl"] }
