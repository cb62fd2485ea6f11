[package]
name = "igdb_api_rust"
version = "0.1.0"
edition = "2021"
publish = false

[dependencies]
heck = "0.5"
microjson = "0.1"
prost = "0.13"
reqwest = { version = "0.12", default-features = false }
thiserror = "1"
