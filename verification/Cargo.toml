[package]
name = "midden"
version = "0.1.0"
edition = "2021"
publish = false

[dependencies]
url = "2"
mime = "0.3"
mime_guess = "2"
sha2 = "0.10"
base64 = "0.22"
html-escape = "0.2"
http = "1"
serde_json = "1"
syntect = { version = "5", default-features = false, features = ["default-fancy"] }
