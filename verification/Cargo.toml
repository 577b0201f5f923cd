[package]
name = "rocket_cors"
version = "0.6.0"
edition = "2021"
publish = false

[dependencies]
log = "0.4"
regex = "1"
url = "2"
unicase = "2"
serde = { version = "1", features = ["derive"] }
serde_derive = "1"
rocket = "0.5"
