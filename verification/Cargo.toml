[package]
name = "ccapi"
version = "0.1.0"
edition = "2021"
publish = false

[dependencies]
ureq = { version = "2", default-features = false }
getopts = "0.2"
anyhow = "1"
