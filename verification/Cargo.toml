[package]
name = "doc_svc"
version = "0.1.0"
edition = "2021"
publish = false

[dependencies]
argon2 = "=0.5.3"
jsonwebtoken = { version = "=10.4.0", default-features = false, features = ["rust_crypto"] }
sha2 = "=0.10.9"
uuid = { version = "=1.29.1", features = ["v4"] }
chrono = "=0.4.45"
validator = { version = "=0.20.0", features = ["derive"] }
serde = { version = "=1.0.229", features = ["derive"] }
serde_json = { version = "=1.0.154", features = ["raw_value"] }
tokio = { version = "=1.54.1", features = ["rt-multi-thread", "macros", "fs", "sync", "time", "io-util"] }
tokio-stream = "=0.1.19"
tonic = "=0.14.9"
tower = "=0.5.3"
http = "=1.5.0"
sqlx = { version = "=0.8.6", default-features = false, features = ["runtime-tokio", "postgres", "uuid", "chrono", "json", "derive", "ipnet"] }
sysinfo = "=0.37.2"
dotenvy = "=0.15.7"
regex = "=1.13.1"
