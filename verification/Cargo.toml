[package]
name = "descriptor_checksum"
version = "0.1.0"
edition = "2021"
publish = false

[dependencies]
bitcoin = "*"
