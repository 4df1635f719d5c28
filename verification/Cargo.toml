[package]
name = "tiny_cmd"
version = "0.1.0"
edition = "2021"
publish = false

[dependencies]
unicode-width = "0.1"
tokio = { version = "1", default-features = false, features = ["rt"] }
