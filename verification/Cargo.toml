[package]
name = "nuefi"
version = "0.1.0"
edition = "2021"
publish = false

[dependencies]
crc = "3"
log = "0.4"
nuuid = "*"
