[package]
name = "aggregator"
version = "0.1.0"
edition = "2021"
publish = false

[dependencies]
sha3 = "=0.10.9"
poem = "=1.3.59"
async-trait = "=0.1.92"
