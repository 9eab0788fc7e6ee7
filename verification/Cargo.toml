[package]
name = "gashuu"
version = "0.1.0"
edition = "2021"
publish = false

[dependencies]
lru = "0.12"
ureq = "3.3"
zip = { version = "7", default-features = false, features = ["deflate"] }
self-replace = "1"
