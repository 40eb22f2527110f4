[package]
name = "btc_sampler"
version = "0.1.0"
edition = "2021"
publish = false

[dependencies]
futures-util = "0.3"
reqwest = "0.12"
serde_json = "1"
tokio = { version = "1", features = ["macros", "rt-multi-thread", "time"] }
