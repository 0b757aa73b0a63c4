[package]
name = "tomoon"
version = "0.1.0"
edition = "2021"
publish = false

[dependencies]
log = "=0.4.34"
minreq = "=2.14.1"
rand = "=0.8.8"
serde = { version = "=1.0.229", features = ["derive"] }
serde_json = "=1.0.154"
usdpl-back = "=0.10.1"
