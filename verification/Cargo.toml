[package]
name = "starlight"
version = "0.1.0"
edition = "2021"
publish = false

[dependencies]
twilight-model = "=0.5.4"
serde = { version = "=1.0.229", features = ["derive"] }
serde_json = "=1.0.154"
rand = "=0.8.8"
url = "=2.5.8"
unicode-ident = "=1.0.27"
