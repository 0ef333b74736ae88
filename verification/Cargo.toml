[package]
name = "serde_esri"
version = "0.1.0"
edition = "2021"
publish = false

[dependencies]
geo = "0.29"
geo-types = "0.7"
reqwest = { version = "0.12", features = ["blocking", "json"] }
serde = { version = "1", features = ["derive"] }
serde_json = "1"
