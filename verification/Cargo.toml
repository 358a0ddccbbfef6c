[package]
name = "nc_teltonika_server"
version = "0.1.0"
edition = "2021"
publish = false

[dependencies]
chrono = "0.4"
hex = "0.4"
serde = { version = "1", features = ["derive"] }
serde_json = "1"
tokio = { version = "1", features = ["full"] }
tracing = "0.1"
dotenvy = "0.15"
rlimit = "*"
config = { version = "*", default-features = false }
sqlx = { version = "*", default-features = false, features = ["postgres", "runtime-tokio", "chrono", "json"] }
reqwest = { version = "*", default-features = false, features = ["json"] }
axum = { version = "*", default-features = false, features = ["tokio", "http1"] }
metrics-exporter-prometheus = { version = "*", default-features = false }
