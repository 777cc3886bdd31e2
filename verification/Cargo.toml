[package]
name = "axum_tonic_demo"
version = "0.1.0"
edition = "2021"
publish = false

[dependencies]
anyhow = "=1.0.104"
axum = { version = "=0.8.9", features = ["http2"] }
futures = "=0.3.34"
hyper = "=1.12.0"
prost = "=0.14.4"
serde = { version = "=1.0.229", features = ["derive"] }
sqlx = { version = "=0.8.6", default-features = false, features = ["sqlite", "runtime-tokio", "derive", "migrate"] }
tokio = { version = "=1.54.1", features = ["rt-multi-thread", "macros", "net"] }
tonic = "=0.14.6"
tonic-prost = "=0.14.6"
tower = { version = "=0.5.3", features = ["steer", "make"] }
