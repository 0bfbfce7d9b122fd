[package]
name = "object_store_client"
version = "0.1.0"
edition = "2021"
publish = false

[dependencies]
async-trait = "0.1"
bytes = "1"
http = "1"
http-body-util = "0.1"
hyper = "1"
rand = "0.9"
reqwest = { version = "0.12", default-features = false }
thiserror = "2"
tokio = { version = "1", features = ["rt", "rt-multi-thread", "sync", "time", "macros"] }
tracing = "0.1"
