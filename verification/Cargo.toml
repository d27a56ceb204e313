[package]
name = "helixdb"
version = "0.1.0"
edition = "2021"
publish = false

[dependencies]
pest = "2"
rusqlite = "*"
reqwest = { version = "0.12", default-features = false, features = ["blocking", "json"] }
serde = { version = "1", features = ["derive"] }
sonic-rs = "*"
