[package]
name = "typed_response"
version = "0.1.0"
edition = "2021"
publish = false

[dependencies]
bytes = "1"
serde = "1"
serde_json = "1"
reqwest = { version = "0.12", default-features = false, features = ["blocking"] }
async-trait = "0.1"
