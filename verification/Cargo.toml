[package]
name = "nova_core"
version = "0.1.0"
edition = "2021"
publish = false

[dependencies]
pinned-init = { version = "=0.0.10", default-features = false, features = ["std"] }
