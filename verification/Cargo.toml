[package]
name = "neolite"
version = "0.1.0"
edition = "2021"
publish = false

[dependencies]
http = "*"
log = "*"
reqwest = { version = "*", default-features = false }
serde_json = "*"
thiserror = "*"
