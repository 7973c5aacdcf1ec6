[package]
name = "dds"
version = "0.1.0"
edition = "2021"
publish = false

[dependencies]
humantime = "2"
serde = "1"
