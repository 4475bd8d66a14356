[package]
name = "gamebridge"
version = "0.1.0"
edition = "2021"
publish = false

[dependencies]
json = "*"
serialport = { version = "*", default-features = false }
tungstenite = "*"
url = "*"
