[package]
name = "quick_res"
version = "0.1.0"
edition = "2021"
publish = false

[dependencies]
uuid = { version = "1", features = ["v4", "serde"] }
time = { version = "0.3", features = ["serde", "formatting", "parsing"] }
validator = { version = "*", features = ["derive"] }
serde = { version = "1", features = ["derive"] }
serde_json = "1"
thiserror = "*"
axum = "0.8"
tower-http = { version = "*", features = ["cors", "trace"] }
sqlx = { version = "*", default-features = false, features = ["runtime-tokio", "sqlite", "time", "uuid", "derive"] }
dotenvy = "*"
shuttle-axum = "*"
shuttle-runtime = "*"
tokio = { version = "1", features = ["rt-multi-thread", "macros"] }
