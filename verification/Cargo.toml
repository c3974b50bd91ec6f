[package]
name = "tower_governor"
version = "0.1.0"
edition = "2021"
publish = false

[dependencies]
axum = { version = "*", default-features = false, features = ["tokio"] }
forwarded-header-value = "*"
governor = "*"
http = "1"
pin-project = "1"
thiserror = "*"
tonic = { version = "*", default-features = false }
tower = "*"
tracing = "0.1"
