[package]
name = "orthanc_cli"
version = "0.1.0"
edition = "2021"
publish = false

[dependencies]
clap = "*"
comfy-table = "*"
orthanc = "*"
serde = { version = "*", features = ["derive"] }
serde_json = "*"
serde_yaml = "*"
