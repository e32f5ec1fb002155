[package]
name = "tracert"
version = "0.1.0"
edition = "2021"
publish = false

[dependencies]
pnet_packet = "=0.35.0"
socket2 = { version = "=0.6.5", features = ["all"] }
default-net = "=0.22.0"
dns-lookup = "=4.0.2"
