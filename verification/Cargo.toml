[package]
name = "lux_runner"
version = "0.1.0"
edition = "2021"
publish = false

[dependencies]
inquire = "*"
serde = "1"
serde_derive = "1"
serde_json = "1"
tokio = { version = "1", features = ["macros", "rt-multi-thread", "sync"] }
