[package]
name = "corgiterm"
version = "0.1.0"
edition = "2021"
publish = false

[dependencies]
regex = "=1.13.1"
base64 = "=0.22.1"
unicode-width = "=0.2.3"
vte = "=0.13.1"
uuid = { version = "=1.29.0", features = ["v4"] }
chrono = "=0.4.45"
semver = "=1.0.28"
serde = { version = "=1.0.229", features = ["derive"] }
serde_json = "=1.0.154"
dirs = "=5.0.1"
