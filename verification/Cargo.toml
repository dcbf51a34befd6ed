[package]
name = "bpscripts"
version = "0.1.0"
edition = "2021"
publish = false

[dependencies]
bitcoin = "0.27"
miniscript = "6"
