[package]
name = "iscogram"
version = "0.1.0"
edition = "2021"
publish = false

[dependencies]
askama = "0.12"
axum = { version = "0.7", features = ["multipart"] }
chrono = "0.4"
form_urlencoded = "1"
hex = "0.4"
rand = "0.8"
serde = { version = "1", features = ["derive"] }
sha2 = "0.10"
sqlx = { version = "0.8", default-features = false, features = ["chrono", "derive", "mysql", "runtime-tokio"] }
tokio = { version = "1", features = ["fs", "macros", "net", "rt-multi-thread"] }
tower = { version = "0.5", features = ["util"] }
tower-http = { version = "0.6", features = ["fs"] }
