[package]
name = "headlines"
version = "0.1.0"
edition = "2021"
publish = false

[dependencies]
url = "2"
ureq = { version = "2", features = ["json"] }
serde = { version = "1", features = ["derive"] }
serde_json = "1"
