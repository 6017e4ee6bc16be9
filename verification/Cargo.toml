[package]
name = "rate_util"
version = "0.1.0"
edition = "2021"
publish = false

[dependencies]
num-rational = "*"
serde = { version = "*", features = ["derive"] }
schemars = "*"
