[package]
name = "request_body"
version = "0.1.0"
edition = "2021"
publish = false

[dependencies]
async-trait = "0.1"
bytes = "1"
http = "0.2"
hyper = { version = "0.14", default-features = false, features = ["stream"] }
indexmap = "1"
schemars = "0.8"
serde = "1"
serde_json = "1"
serde_urlencoded = "0.7"
