[package]
name = "casper"
version = "0.1.0"
edition = "2021"
publish = false

[dependencies]
chrono = "0.4"
color-eyre = "0.6"
itertools = "0.10"
lazy_static = "1"
poise = "0.5"
regex = "1"
sqlx = { version = "0.6", default-features = false, features = ["sqlite", "runtime-tokio-rustls", "chrono"] }
tokio = { version = "1", features = ["macros", "rt-multi-thread"] }
tokio-cron-scheduler = "0.9"
tracing = "0.1"
tracing-subscriber = "0.3"
