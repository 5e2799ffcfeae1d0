[package]
name = "tomuss"
version = "0.1.0"
edition = "2021"
publish = false

[dependencies]
rayon = "=1.12.0"
regex = "=1.13.1"
serde_json = "=1.0.151"
urlencoding = "=2.1.3"
