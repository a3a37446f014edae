[package]
name = "ant_node"
version = "0.1.0"
edition = "2021"
publish = false

[dependencies]
saorsa-core = "=0.29.2"
tokio = { version = "=1.54.1", features = ["full"] }
tokio-util = "=0.7.20"
