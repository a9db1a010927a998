[package]
name = "rustume"
version = "0.1.0"
edition = "2021"
publish = false

[dependencies]
ammonia = "=4.2.4"
anyhow = "=1.0.104"
base64 = "=0.22.1"
chrono = { version = "=0.4.45", default-features = false, features = ["std"] }
clap = { version = "=4.6.7", features = ["derive"] }
csv = "=1.4.0"
cuid2 = "=0.1.6"
ego-tree = "=0.11.1"
regex = "=1.13.1"
scraper = { version = "=0.29.0", default-features = false }
serde_json = { version = "=1.0.154", features = ["preserve_order"] }
typst = "=0.14.2"
typst-assets = { version = "=0.14.2", features = ["fonts"] }
typst-pdf = "=0.14.2"
typst-render = "=0.14.2"
zip = { version = "=9.1.0", default-features = false, features = ["deflate"] }
