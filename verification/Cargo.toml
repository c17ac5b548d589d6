[package]
name = "host_env"
version = "0.1.0"
edition = "2021"
publish = false

[dependencies]
borsh = "0.9"
log = "0.4"
tokio = { version = "1", default-features = false, features = ["sync"] }
wasmer = "2"
