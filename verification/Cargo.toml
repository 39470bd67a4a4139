[package]
name = "aibook"
version = "0.1.0"
edition = "2021"
publish = false

[dependencies]
bson = "*"
chrono = "*"
rand = "*"
serde = { version = "*", features = ["derive"] }
serde_json = "*"
tokio = { version = "*", features = ["rt", "macros"] }
gems = "*"
