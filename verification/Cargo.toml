[package]
name = "kafka_probe"
version = "0.1.0"
edition = "2021"
publish = false

[dependencies]
clap = { version = "4", features = ["derive", "env"] }
rdkafka = "0.36"
tokio = { version = "1", features = ["macros", "rt-multi-thread", "signal"] }
