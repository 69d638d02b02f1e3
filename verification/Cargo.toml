[package]
name = "proxy_gateway"
version = "0.1.0"
edition = "2021"
publish = false

[dependencies]
native-tls = "=0.2.18"
signal-hook = "=0.3.18"
smol_str = "=0.3.7"
time = "=0.1.45"
