[package]
name = "cew"
version = "0.1.0"
edition = "2021"
publish = false

[dependencies]
color-eyre = "*"
tracing = "*"
tracing-subscriber = { version = "*", features = ["env-filter"] }
thiserror = "*"
