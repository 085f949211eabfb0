[package]
name = "conflux_node"
version = "0.1.0"
edition = "2021"
publish = false

[dependencies]
napi = { version = "=2.16.17", features = ["async"] }
napi-derive = "=2.16.13"
tempfile = "=3.27.0"
log = "=0.4.34"
log4rs = "=1.4.0"
parking_lot = "=0.12.5"
