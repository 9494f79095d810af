[package]
name = "picker"
version = "0.1.0"
edition = "2021"
publish = false

[dependencies]
anyhow = "1"
content_inspector = "0.2"
futures-util = { version = "0.3", default-features = false, features = ["std", "async-await"] }
fuzzy-matcher = "0.3"
log = "0.4"
