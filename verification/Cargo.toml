[package]
name = "cortex"
version = "0.1.0"
edition = "2021"
publish = false

[dependencies]
clap = { version = "4", features = ["derive"] }
cuckoofilter = "0.5"
easy-tokio-rustls = "*"
futures = "0.3"
local-ip-address = "0.6"
mongodb = "3"
nanoid = "0.4"
rand = "0.8"
serde = { version = "1", features = ["derive"] }
serde_json = "1"
sha2 = "0.10"
tokio = { version = "1", features = ["full"] }
