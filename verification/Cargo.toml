[package]
name = "universal-config"
version = "0.1.0"
edition = "2021"
publish = false

[dependencies]
dirs = "5"
libcorn = "0.9"
serde = { version = "1", features = ["derive"] }
serde_json = "1"
serde-xml-rs = "0.6"
serde_yaml = "0.9"
thiserror = "1"
toml = "0.7"
tracing = "0.1"
