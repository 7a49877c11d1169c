[package]
name = "lightningd"
version = "0.1.0"
edition = "2021"
publish = false

[dependencies]
anyhow = "*"
clightningrpc = "*"
tempfile = "*"
which = "*"
