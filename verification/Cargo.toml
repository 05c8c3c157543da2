[package]
name = "delete_blob"
version = "0.1.0"
edition = "2021"
publish = false

[dependencies]
futures = "0.1"
hyper = { version = "0.12", default-features = false }
