[package]
name = "docker_mri"
version = "0.1.0"
edition = "2021"
publish = false

[dependencies]
url = "*"

[dev-dependencies]
serde_json = "*"
