[package]
name = "cloud_bridge"
version = "0.1.0"
edition = "2021"
publish = false

[dependencies]
async-stream = "0.3"
bytesize = { version = "1", features = ["serde"] }
chrono = { version = "0.4", features = ["serde"] }
futures = "0.3"
hyper = "1"
jsonwebtoken = "9"
lazy_static = "1"
once_cell = "1"
prost = "0.13"
prost-types = "0.13"
reqwest = { version = "0.12", default-features = false, features = ["json", "rustls-tls"] }
serde = { version = "1", features = ["derive"] }
serde_json = "1"
tokio = { version = "1", features = ["full"] }
tonic = { version = "0.12", features = ["tls", "tls-webpki-roots"] }
yup-oauth2 = "*"
