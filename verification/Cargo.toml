[package]
name = "dashahan"
version = "0.1.7"
edition = "2021"
publish = false

[dependencies]
serde = { version = "=1.0.229", features = ["derive"] }
serde_json = "=1.0.154"
semver = "=1.0.28"
getrandom = "=0.3.4"
tauri = { version = "=2.12.5", default-features = false }
tauri-plugin-single-instance = { version = "=2.5.5", default-features = false }
