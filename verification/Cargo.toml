[package]
name = "chalmers_thesis"
version = "0.1.0"
edition = "2021"
publish = false

[dependencies]
serde_json = "1"
