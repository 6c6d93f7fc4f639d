[package]
name = "jrainbow"
version = "0.1.0"
edition = "2021"
publish = false

[dependencies]
base64 = "=0.13.1"
md5 = "=0.7.0"
rand = "=0.8.8"
clap = "=2.34.0"
indicatif = "0.17"
serde = { version = "=1.0.229", features = ["derive"] }
serde_json = "=1.0.154"
threadpool = "=1.8.1"
