[package]
name = "nzcp"
version = "0.1.0"
edition = "2021"
publish = false

[dependencies]
did-web = "=0.1.2"
p256 = "=0.13.2"
serde = { version = "=1.0.229", features = ["derive"] }
serde_json = "=1.0.151"
ssi = "=0.4.0"
thiserror = "=1.0.69"
