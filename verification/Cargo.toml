[package]
name = "altere_workbench"
version = "0.1.0"
edition = "2021"
publish = false

[dependencies]
agent-client-protocol = "*"
anyhow = "1"
futures = "0.3"
log = "0.4"
serde = { version = "1", features = ["derive"] }
serde_json = "1"
smol = "2"
uuid = { version = "1", features = ["v4"] }
zed_extension_api = "*"
