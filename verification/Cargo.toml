[package]
name = "lemotests"
version = "0.1.0"
edition = "2021"
publish = false

[dependencies]
indexmap = "*"
serde = { version = "*", features = ["derive"] }
serde_json = "*"
anyhow = "*"
tokio = { version = "*", default-features = false, features = ["fs"] }
workspaces = { version = "*", default-features = false }
