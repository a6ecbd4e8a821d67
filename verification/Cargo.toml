[package]
name = "kafka_client"
version = "0.1.0"
edition = "2021"
publish = false

[dependencies]
anyhow = "1"
rdkafka = "*"
tokio = { version = "1", features = ["rt-multi-thread", "sync", "time"] }
