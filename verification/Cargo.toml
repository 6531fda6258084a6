[package]
name = "sniffnet"
version = "0.1.0"
edition = "2021"
publish = false

[dependencies]
iced = { version = "=0.10.0", default-features = false }
iced_style = "=0.9.0"
pcap = "=1.3.0"
