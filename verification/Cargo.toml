[package]
name = "branches"
version = "0.1.0"
edition = "2021"
publish = false

[dependencies]
atrium-api = "0.24"
atrium-xrpc-client = "0.5"
relm4 = { version = "0.9", features = ["libadwaita"] }
reqwest = "0.12"
serde_json = "1"
