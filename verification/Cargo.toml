[package]
name = "dockertest"
version = "0.1.0"
edition = "2021"
publish = false

[dependencies]
bollard = "0.10"
serde_json = "1"
