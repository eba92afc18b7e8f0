[package]
name = "erb2epp"
version = "0.1.0"
edition = "2021"
publish = false

[dependencies]
regex-lite = "0.1"
