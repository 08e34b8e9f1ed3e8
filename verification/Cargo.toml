[package]
name = "msst-net-client-installer"
version = "0.1.0"
edition = "2021"
publish = false

[dependencies]
anyhow = "1"
console = "0.15"
dialoguer = "0.11"
indicatif = "0.17"
reqwest = { version = "0.12", default-features = false, features = ["blocking", "json", "rustls-tls"] }
serde = { version = "1", features = ["derive"] }
zip = { version = "2", default-features = false, features = ["deflate"] }
