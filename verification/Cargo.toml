[package]
name = "ttrss_sync"
version = "0.1.0"
edition = "2021"
publish = false

[dependencies]
serde_json = "1"
serde = "1"
serde_derive = "1"
toml = "*"
reqwest = { version = "0.12", default-features = false, features = ["blocking"] }
