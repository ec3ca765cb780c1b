[package]
name = "mdow"
version = "0.1.0"
edition = "2021"
publish = false

[dependencies]
ammonia = "*"
pulldown-cmark = "*"
qrcode = "*"
uuid = { version = "*", features = ["v4"] }
axum = "*"
tokio = { version = "*", features = ["rt-multi-thread", "net", "macros"] }
sqlx = { version = "*", default-features = false, features = ["sqlite", "runtime-tokio", "chrono"] }
maud = { version = "*", features = ["axum"] }
serde = { version = "*", features = ["derive"] }
chrono = "*"
urlencoding = "*"
