[package]
name = "series-troxide"
version = "0.1.0"
edition = "2021"
publish = false

[dependencies]
chrono = { version = "0.4", default-features = false, features = ["std"] }
fuzzy-matcher = "0.3"
smallvec = "1"
indexmap = "2"
html2text = "*"
rust_iso3166 = "*"
