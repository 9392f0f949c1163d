[package]
name = "packets"
version = "0.1.0"
edition = "2021"
publish = false

[dependencies]
anyhow = "1"
bincode = "1"
byteorder = "1"
serde = "1"
socket2 = "0.3"
