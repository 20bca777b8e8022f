[package]
name = "oscal_datatypes"
version = "0.1.0"
edition = "2021"
publish = false

[dependencies]
chrono = "*"
fluent-uri = "*"
iso8601-duration = "*"
serde = { version = "*", features = ["derive"] }
serde_json = "*"
thiserror = "*"
uuid = { version = "*", features = ["v4"] }
