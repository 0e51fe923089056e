[package]
name = "kaloron"
version = "0.1.0"
edition = "2021"
publish = false

[dependencies]
anyhow = "1"
blake3 = "=1.8.7"
bytes = "=1.12.1"
http = "1"
typeid = "=1.0.3"
