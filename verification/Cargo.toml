[package]
name = "nmea2000"
version = "0.1.0"
edition = "2021"
publish = false

[dependencies]
anyhow = "1"
socketcan = "3"
