[package]
name = "ci_broker"
version = "0.1.0"
edition = "2021"
publish = false

[dependencies]
serde_json = "1"
hyper = { version = "0.14", features = ["client", "http1", "tcp"] }
tokio = { version = "1", features = ["rt-multi-thread", "time"] }
crossbeam-channel = "0.5"
anyhow = "1"
secstr = "0.5"
radicle = "*"
radicle-term = "*"
