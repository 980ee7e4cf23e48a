[package]
name = "michiru"
version = "0.1.0"
edition = "2021"
publish = false

[dependencies]
anyhow = "=1.0.104"
rumqttc = "=0.25.1"
tokio = { version = "=1.53.2", features = ["macros", "rt-multi-thread"] }
