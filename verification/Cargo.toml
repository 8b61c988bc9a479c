[package]
name = "pg_browser"
version = "0.1.0"
edition = "2021"
publish = false

[dependencies]
sqlx = { version = "=0.8.6", default-features = false, features = ["runtime-tokio", "postgres"] }
iced = { version = "=0.14.0", default-features = false, features = ["tokio", "tiny-skia", "x11"] }
