[package]
name = "order_creation"
version = "0.1.0"
edition = "2021"
publish = false

[dependencies]
serde = { version = "1", features = ["derive"] }
serde_with = "*"
utoipa = { version = "*", features = ["yaml"] }
