[package]
name = "azul_box"
version = "0.1.0"
edition = "2021"
publish = false

[dependencies]
serde_json = "1"
url = "2"
scraper = "*"
ureq = "3"
lofty = "*"
dirs = "*"
toml = "*"
serde = { version = "1", features = ["derive"] }
