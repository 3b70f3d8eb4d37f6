[package]
name = "rid_beacon"
version = "0.1.0"
edition = "2021"
publish = false

[dependencies]
crc16 = "*"
ieee80211 = "*"
