[package]
name = "headers_relay"
version = "0.1.0"
edition = "2021"
publish = false

[dependencies]
async-std = "=1.13.2"
futures = "=0.3.34"
log = "=0.4.35"
num-traits = "=0.2.19"
