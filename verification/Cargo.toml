[package]
name = "urlfetch"
version = "0.1.0"
edition = "2021"
publish = false

[dependencies]
bytes = "*"
reqwest = { version = "*", default-features = false, features = ["blocking"] }
url = "*"
