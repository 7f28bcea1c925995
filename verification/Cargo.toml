[package]
name = "feedwatch"
version = "0.1.0"
edition = "2021"
publish = false

[dependencies]
serenity = "0.12"
google-youtube3 = "5"
sqlx = { version = "0.8", features = ["sqlite", "runtime-tokio"] }
tokio = { version = "1", features = ["macros", "rt-multi-thread", "sync", "time"] }
config = "0.14"
