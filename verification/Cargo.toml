[package]
name = "actix_web_lets_encrypt"
version = "0.1.0"
edition = "2021"
publish = false

[dependencies]
actix = "*"
actix-files = "*"
actix-http = "*"
actix-service = "*"
actix-web = { version = "*", default-features = false, features = ["openssl"] }
chrono = "0.4"
openssl = "0.10"
serde = { version = "1", features = ["derive"] }
serde_json = "1"
