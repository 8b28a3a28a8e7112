[package]
name = "webguard"
version = "0.1.0"
edition = "2021"
publish = false

[dependencies]
anyhow = "*"
bcrypt = "*"
chrono = "*"
dotenvy = "*"
jsonwebtoken = "*"
reqwest = { version = "*", default-features = false, features = ["rustls-tls"] }
rustls = { version = "*", default-features = false, features = ["ring", "std", "logging", "tls12"] }
serde = { version = "*", features = ["derive"] }
serde_json = "*"
sha2 = "*"
tokio = { version = "*", features = ["full"] }
tokio-rustls = { version = "*", default-features = false, features = ["ring", "logging", "tls12"] }
uuid = { version = "*", features = ["v4"] }
validator = { version = "*", features = ["derive"] }
webpki-roots = "*"
x509-parser = "*"
