[package]
name = "container_core"
version = "0.1.0"
edition = "2021"
publish = false

[dependencies]
flate2 = "*"
bollard = "*"
tokio = { version = "*", features = ["macros", "rt-multi-thread"] }
futures = "*"
async-channel = "*"
anyhow = "*"

[dev-dependencies]
tar = "*"
