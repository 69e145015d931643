[package]
name = "aram_helper"
version = "0.1.0"
edition = "2021"
publish = false

[dependencies]
riven = "2"
mongodb = "2"
tokio = { version = "1", features = ["macros", "rt-multi-thread"] }
futures = "0.3"
serde = { version = "1", features = ["derive"] }
