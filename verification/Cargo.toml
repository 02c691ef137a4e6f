[package]
name = "line_market"
version = "0.1.0"
edition = "2021"
publish = false

[dependencies]
blake2 = "0.10"
gstd = "*"
sails-rs = "*"
schnorrkel = "0.11"
