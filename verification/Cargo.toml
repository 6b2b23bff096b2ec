[package]
name = "amadeus"
version = "0.1.0"
edition = "2021"
publish = false

[dependencies]
futures = "0.3"
pin-project = "1"
sum = "0.1"
tokio = { version = "1", features = ["rt", "rt-multi-thread"] }
derive-new = "0.5"
