[package]
name = "aurora"
version = "0.1.0"
edition = "2021"
publish = false

[dependencies]
twilight-model = "=0.17.1"
twilight-http = "=0.17.1"
twilight-gateway = "=0.17.1"
twilight-interactions = "=0.17.1"
derive_builder = "=0.20.2"
futures-util = "=0.3.34"
thiserror = "=2.0.21"
tokio = { version = "=1.54.1", features = ["rt", "macros"] }
tracing = "=0.1.44"
