[package]
name = "resolution_protocol"
version = "0.1.0"
edition = "2021"
publish = false

[dependencies]
aes-gcm = "*"
base64 = "*"
crc = "*"
oqs = "*"
uuid = { version = "*", features = ["v4"] }
