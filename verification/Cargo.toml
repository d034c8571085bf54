[package]
name = "skylinedb"
version = "0.1.0"
edition = "2021"
publish = false

[dependencies]
anyhow = "*"
bytes = "*"
libc = "*"
serde = { version = "*", features = ["derive"] }
serde_json = "*"
sqlx = { version = "*", default-features = false, features = ["runtime-tokio", "sqlite"] }
time = "*"
tokio = { version = "*", features = ["rt-multi-thread", "net", "sync", "time", "io-util", "macros"] }
tracing = "*"
tracing-subscriber = { version = "*", features = ["env-filter"] }
