[package]
name = "bevy_ethers"
version = "0.1.0"
edition = "2021"
publish = false

[dependencies]
crossbeam = "0.8"
anyhow = "1"
tokio = { version = "1", default-features = false, features = ["rt-multi-thread", "time"] }
ethers = { version = "2", default-features = false, features = ["ws"] }
