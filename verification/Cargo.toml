[package]
name = "audia"
version = "0.1.0"
edition = "2021"
publish = false

[dependencies]
crossbeam-channel = "0.5"
cpal = "0.15"
log = "0.4"
spectrum-analyzer = "*"
