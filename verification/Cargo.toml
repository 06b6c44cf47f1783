[package]
name = "cast_core"
version = "0.1.0"
edition = "2021"
publish = false

[dependencies]
xml-rs = "*"
tokio = { version = "*", features = ["rt", "rt-multi-thread", "macros"] }
