[package]
name = "oidc_mock"
version = "0.1.0"
edition = "2021"
publish = false

[dependencies]
http = "=1.5.0"
url = "=2.5.8"
mas-oidc-client = { version = "=0.11.0", default-features = false }
chrono = { version = "=0.4.45", default-features = false }
