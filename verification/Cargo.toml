[package]
name = "reauth_api"
version = "0.1.0"
edition = "2021"
publish = false

[dependencies]
url = "2"
validator = "0.19"
sha2 = "0.10"
hex = "0.4"
base64 = "0.22"
rand = "0.8"
uuid = { version = "1", features = ["v4"] }
chrono = "0.4"
serde = { version = "1", features = ["derive"] }
serde_json = "1"
thiserror = "2"
async-trait = "0.1"
tokio = { version = "1", features = ["rt", "macros"] }
jsonwebtoken = "9"
time = "0.3"
secrecy = "0.10"
tracing = "0.1"
