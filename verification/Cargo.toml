[package]
name = "memdevice"
version = "0.1.0"
edition = "2021"
publish = false

[dependencies]
measurements = "*"
smbios-lib = "*"
