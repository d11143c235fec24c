[package]
name = "storage_blobs"
version = "0.1.0"
edition = "2021"
publish = false

[dependencies]
azure_core = { version = "0.22", default-features = false }
bytes = "=1.12.1"
time = "=0.3.55"
url = "=2.5.8"
