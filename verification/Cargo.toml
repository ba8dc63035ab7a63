[package]
name = "rise_of_industry"
version = "0.1.0"
edition = "2021"
publish = false

[dependencies]
regex = "*"
serde = { version = "*", features = ["derive"] }
serde_json = "*"
serde_yaml = "*"
serde_repr = "*"
ignore = "*"
log = "*"
env_logger = "*"
