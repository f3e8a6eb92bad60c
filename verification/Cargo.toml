[package]
name = "nft_metadata"
version = "0.1.0"
edition = "2021"
publish = false

[dependencies]
hex = "0.4"
rgb = "0.8"
serde = "1"
serde_json = "1"
url = "2"
