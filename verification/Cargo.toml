[package]
name = "ikigai-repo"
version = "0.1.0"
edition = "2021"
publish = false

[dependencies]
ikigai-core = "0.1"
