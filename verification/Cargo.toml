[package]
name = "elock"
version = "0.1.0"
edition = "2021"
publish = false

[dependencies]
etcd-client = { version = "0.8", features = ["tls"] }
tokio = { version = "=1.54.1", features = ["macros", "rt-multi-thread", "time"] }
tokio-util = "=0.7.20"
tracing = "=0.1.44"
tracing-subscriber = { version = "=0.3.23", features = ["env-filter"] }
