[package]
name = "populist_scrapers"
version = "0.1.0"
edition = "2021"
publish = false

[dependencies]
slugify = "=0.1.0"
regex = "=1.13.1"
encoding_rs = "=0.8.44"
csv = "=1.4.0"
roxmltree = "=0.21.2"
pdf-extract = "=0.12.1"
form_urlencoded = "=1.2.2"
url = "=2.5.8"
serde = { version = "=1.0.229", features = ["derive"] }
scraper = "=0.29.0"
calamine = "=0.38.0"
zip = { version = "*", default-features = false, features = ["deflate"] }
