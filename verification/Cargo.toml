[package]
name = "sbtc_store"
version = "0.1.0"
edition = "2021"
publish = false

[dependencies]
bitcoin = "0.32"
include_dir = "0.7"
sqlx = { version = "0.8", default-features = false, features = ["postgres", "runtime-tokio"] }
tracing = "0.1"
utoipa = "5"

[dev-dependencies]
tokio = { version = "1", features = ["rt"] }
