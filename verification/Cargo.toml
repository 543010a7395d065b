[package]
name = "actix-treblle"
version = "4.0.0"
edition = "2021"
publish = false

[dependencies]
actix-http = { version = "3", default-features = false }
actix-web = { version = "4", default-features = false }
chrono = "0.4"
futures = "0.3"
log = "0.4"
reqwest = { version = "0.11", default-features = false, features = ["json", "rustls-tls"] }
rustc_version_runtime = "0.2"
serde = { version = "1", features = ["derive"] }
serde_json = "1"
tokio = { version = "1", features = ["rt"] }
