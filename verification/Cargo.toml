[package]
name = "azure_sdk_for_rust"
version = "0.1.0"
edition = "2021"
publish = false

[dependencies]
chrono = { version = "0.4", default-features = false, features = ["std"] }
futures = "0.3"
http = "1"
hyper = "1"
serde = { version = "1", features = ["derive"] }
serde-xml-rs = "*"
url = "2"
uuid = "1"
