[package]
name = "neutrino_drive"
version = "0.1.0"
edition = "2021"
publish = false

[dependencies]
chrono = "=0.4.45"
uuid = { version = "=1.29.0", features = ["v4"] }
aes-gcm = "=0.10.3"
base64 = "=0.22.1"
mime_guess = "=2.0.5"
serde = { version = "=1.0.229", features = ["derive"] }
serde_json = "=1.0.154"
jsonwebtoken = "=9.3.1"
actix-web = "=4.18.1"
diesel = { version = "=2.3.14", features = ["sqlite", "r2d2", "chrono"] }
zip = { version = "=2.6.1", features = ["chrono"] }
tokio = { version = "=1.54.1", features = ["full"] }
reqwest = { version = "=0.12.28", default-features = false, features = ["json"] }
actix-multipart = "=0.7.2"
actix-files = "=0.6.10"
futures-util = "=0.3.34"
log = "=0.4.35"
env_logger = "=0.11.11"
dotenvy = "=0.15.7"
