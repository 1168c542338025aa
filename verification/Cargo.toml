[package]
name = "amqpr_api"
version = "0.3.0"
edition = "2021"
publish = false

[dependencies]
amqpr-codec = "*"
bytes = "0.4"
futures = "0.1"
tokio-io = "0.1"
