[package]
name = "nu_plugin_nuts"
version = "0.1.0"
edition = "2021"
publish = false

[dependencies]
anyhow = "=1.0.104"
async-nats = "=0.50.0"
env_logger = "=0.11.11"
futures = "=0.3.34"
log = "=0.4.34"
nu-plugin = "=0.114.1"
nu-protocol = "=0.114.1"
nu-utils = "=0.114.1"
tokio = { version = "=1.54.1", features = ["rt-multi-thread", "sync", "macros"] }
tokio-util = "=0.7.20"
