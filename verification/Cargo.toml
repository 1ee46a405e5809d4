[package]
name = "whoup"
version = "0.1.0"
edition = "2021"
publish = false

[dependencies]
uuid = { version = "=1.29.0", features = ["v4", "serde"] }
url = { version = "=2.5.8", features = ["serde"] }
http = "=1.5.0"
sha2 = "=0.10.9"
base64 = "=0.22.1"
jsonwebtoken = { version = "=10.4.0", features = ["rust_crypto"] }
jsonwebkey = { version = "=0.4.0", features = ["jwt-convert"] }
rsa = "=0.9.10"
rand = "0.8"
rand_chacha = "=0.3.1"
openssl = "0.10"
chrono = { version = "=0.4.45", features = ["serde"] }
serde = { version = "=1.0.229", features = ["derive"] }
serde_json = "=1.0.154"
anyhow = "=1.0.104"
axum = "=0.8.9"
axum-extra = { version = "=0.12.6", features = ["typed-header"] }
tower-cookies = "=0.11.0"
tokio = { version = "=1.54.1", features = ["macros", "rt-multi-thread", "net"] }
moka = { version = "=0.12.16", features = ["future"] }
reqwest = { version = "=0.12.28", default-features = false, features = ["json", "rustls-tls"] }
redis = { version = "=1.8.1", features = ["tokio-comp", "json"] }
time = "=0.3.55"
