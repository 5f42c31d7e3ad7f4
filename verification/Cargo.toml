[package]
name = "qoredb"
version = "0.1.0"
edition = "2021"
publish = false

[dependencies]
argon2 = "=0.5.3"
async-trait = "=0.1.92"
base64 = "=0.22.1"
chrono = "=0.4.45"
futures = "=0.3.34"
keyring = "=3.6.3"
mongodb = "=3.9.1"
rust_decimal = "=1.43.0"
serde = { version = "=1.0.229", features = ["derive"] }
serde_json = "=1.0.154"
sqlparser = "=0.63.0"
sqlx = { version = "=0.8.6", default-features = false, features = ["runtime-tokio", "postgres", "mysql", "chrono", "rust_decimal", "json"] }
tokio = { version = "=1.54.1", features = ["sync", "time", "process", "net", "io-util", "rt-multi-thread", "macros"] }
tracing = "=0.1.44"
tracing-appender = "=0.2.5"
tracing-subscriber = { version = "=0.3.23", features = ["env-filter"] }
uuid = { version = "=1.29.0", features = ["v4", "serde"] }
