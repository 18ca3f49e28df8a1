[package]
name = "snowflake_connector"
version = "0.1.0"
edition = "2021"
publish = false

[dependencies]
uuid = { version = "=1.27.0", features = ["v4"] }
rust_decimal = "=1.43.0"
serde_json = "=1.0.151"
serde = { version = "=1.0.229", features = ["derive"] }
reqwest = { version = "=0.12.28", default-features = false, features = ["json"] }
jwt-simple = "=0.11.9"
base64 = "=0.22.1"
chrono = "=0.4.45"
