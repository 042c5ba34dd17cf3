[package]
name = "greengolingo"
version = "0.1.0"
edition = "2021"
publish = false

[dependencies]
unicode-normalization = "*"
serde = { version = "1", features = ["derive"] }
serde_json = "1"
