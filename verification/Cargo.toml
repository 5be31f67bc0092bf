[package]
name = "boom"
version = "0.1.0"
edition = "2021"
publish = false

[dependencies]
apache-avro = "*"
serde_json = "*"
mongodb = "*"
reqwest = "*"
flare = "*"
