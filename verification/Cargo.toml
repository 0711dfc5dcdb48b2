[package]
name = "pic_to_github"
version = "0.1.0"
edition = "2021"
publish = false

[dependencies]
anyhow = "1"
base64 = "0.22"
home = "0.5"
reqwest = { version = "0.12", features = ["blocking", "gzip", "json"] }
serde = { version = "1", features = ["derive"] }
serde_json = "1"
short-uuid = "*"
toml = "0.8"
