[package]
name = "open_circuits"
version = "0.1.0"
edition = "2021"
publish = false

[dependencies]
rocket = { version = "=0.5.2", features = ["json"] }
serde = { version = "=1.0.229", features = ["derive"] }
serde_json = "=1.0.154"
google-datastore1 = "=1.0.14"
hyper = "=0.10.16"
hyper-native-tls = "=0.3.0"
yup-oauth2 = "=1.0.12"
google-signin = { version = "=0.3.0", default-features = false, features = ["with-openssl"] }
rusqlite = { version = "=0.27.0", features = ["bundled"] }
