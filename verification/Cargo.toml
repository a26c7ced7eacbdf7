[package]
name = "share_anything"
version = "0.1.0"
edition = "2021"
publish = false

[dependencies]
dashmap = "=6.2.1"
sha2 = "=0.10.9"
hex = "=0.4.3"
base64 = "=0.22.1"
bcrypt = "=0.15.1"
rand = "=0.8.8"
jsonwebtoken = "=9.3.1"
oauth2 = { version = "=4.4.2", default-features = false }
serde = { version = "=1.0.229", features = ["derive"] }
serde_json = "=1.0.154"
chrono = "=0.4.45"
dotenvy = "=0.15.7"
zip = { version = "0.6", default-features = false, features = ["deflate"] }
