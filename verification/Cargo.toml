[package]
name = "jacket_finder"
version = "0.1.0"
edition = "2021"
publish = false

[dependencies]
scraper = "*"
md5 = "*"
urlencoding = "*"
chrono = "*"
serde = { version = "*", features = ["derive"] }
reqwest = { version = "*", default-features = false, features = ["json"] }
tokio = { version = "*", features = ["rt-multi-thread", "macros", "time"] }
sqlx = { version = "*", default-features = false, features = ["runtime-tokio", "sqlite"] }
tokio-cron-scheduler = "*"
anyhow = "*"
dotenvy = "*"
tracing = "*"
tracing-subscriber = "*"
