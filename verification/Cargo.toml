[package]
name = "octanezsr_api"
version = "0.1.0"
edition = "2021"
publish = false

[dependencies]
url = "2"
serde_json = "1"
http = "0.2"
bytes = "1"
async-trait = "0.1"
futures = "0.3"
serde = "1"
reqwest = { version = "0.11", default-features = false, features = ["blocking"] }

[dev-dependencies]
