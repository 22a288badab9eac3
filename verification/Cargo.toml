[package]
name = "marker_fusion"
version = "0.1.0"
edition = "2021"
publish = false

[dependencies]
cgmath = "0.18"
futures = "0.3"
r2r = "*"
tokio = { version = "1", features = ["full"] }
