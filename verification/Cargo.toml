[package]
name = "ip_registry"
version = "0.1.0"
edition = "2021"
publish = false

[dependencies]
actix-web = "4"
redis = "*"
serde = { version = "1", features = ["derive"] }
