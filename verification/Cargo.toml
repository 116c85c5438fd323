[package]
name = "markhola"
version = "0.1.0"
edition = "2021"
publish = false

[dependencies]
chardetng = "0.1"
encoding_rs = "0.8"
url = "2"
percent-encoding = "2"
serde = { version = "1", features = ["derive"] }
serde_json = "1"
chrono = "0.4"
open = "5"
lopdf = "*"
tao = "*"
wry = "*"
rfd = "*"
