[package]
name = "ssh_proxy_gtk"
version = "0.1.0"
edition = "2021"
publish = false

[dependencies]
dirs = "*"
gtk4 = "*"
serde = { version = "1", features = ["derive"] }
serde_json = "1"
