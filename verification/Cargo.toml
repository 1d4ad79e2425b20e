[package]
name = "checkgate"
version = "0.1.24"
edition = "2021"
publish = false

[dependencies]
async-stream = "0.3"
axum = "=0.8.9"
axum-extra = { version = "=0.12.6", features = ["cookie-private"] }
constant_time_eq = "=0.6.1"
dashmap = "=6.2.1"
futures-util = "0.3"
murmur3 = "=0.5.2"
rand = "=0.10.3"
serde = { version = "1", features = ["derive"] }
serde_json = "=1.0.154"
sha2 = "=0.11.1"
sqlx = { version = "=0.9.0", default-features = false, features = ["json", "postgres", "runtime-tokio"] }
time = "=0.3.55"
tokio = { version = "=1.54.1", features = ["sync", "time", "rt", "macros"] }
tracing = "0.1"
