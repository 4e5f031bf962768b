[package]
name = "crustbrowser"
version = "0.1.0"
edition = "2021"
publish = false

[dependencies]
url = "2"
scraper = "*"
serde = { version = "1", features = ["derive"] }
serde_json = "1"
colored = "*"
reqwest = { version = "0.12", default-features = false, features = ["blocking", "rustls-tls"] }
