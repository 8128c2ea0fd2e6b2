[package]
name = "sn-releases"
version = "0.1.0"
edition = "2021"
publish = false

[dependencies]
async-trait = "0.1"
chrono = { version = "0.4", default-features = false, features = ["std", "clock"] }
flate2 = "1"
reqwest = { version = "0.11", default-features = false, features = ["rustls-tls"] }
semver = "1"
serde_json = "1"
tar = "0.4"
thiserror = "1"
tokio = { version = "1", features = ["fs", "io-util"] }
zip = { version = "0.6", default-features = false, features = ["deflate"] }
