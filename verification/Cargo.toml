[package]
name = "sitegen"
version = "0.1.0"
edition = "2021"
publish = false

[dependencies]
anyhow = "=1.0.104"
gray_matter = "=0.2.9"
html-escape = "=0.2.15"
pulldown-cmark = { version = "=0.9.6", default-features = false }
serde = { version = "=1.0.229", features = ["derive"] }
serde_json = { version = "=1.0.154", features = ["float_roundtrip"] }
serde_yaml = "=0.9.34"
tera = "=1.20.1"
