[package]
name = "quiet"
version = "0.1.0"
edition = "2021"
publish = false

[dependencies]
chrono = "*"
handlebars = "*"
http = "*"
serde_json = "*"
url = "*"
uuid = { version = "*", features = ["v4"] }
