[package]
name = "milk_and_cookies"
version = "0.1.0"
edition = "2021"
publish = false

[dependencies]
axum = "0.7"
axum-extra = { version = "0.9", features = ["cookie"] }
cargo-manifest = "0.17"
chrono = { version = "0.4", features = ["serde"] }
jsonwebtoken = "9"
leaky-bucket = "1"
parking_lot = "0.12"
rand = "0.8"
serde = { version = "1", features = ["derive"] }
serde_json = "1"
serde_yaml = "0.9"
shuttle-axum = "0.49"
shuttle-runtime = "0.49"
shuttle-shared-db = { version = "0.49", features = ["postgres", "sqlx"] }
sqlx = { version = "0.8", default-features = false, features = ["postgres", "runtime-tokio", "migrate", "uuid", "chrono"] }
tera = { version = "1", default-features = false }
toml = "0.8"
tower = "0.5"
tower-http = { version = "0.6", features = ["fs"] }
uuid = { version = "1", features = ["v4", "serde"] }
