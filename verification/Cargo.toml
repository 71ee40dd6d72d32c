[package]
name = "slow_start_pool"
version = "0.1.0"
edition = "2021"
publish = false

[dependencies]
actix = "0.7"
futures = "0.1"
futures-locks = "<0.6"
log = "0.4"
rand = "0.5"
simple_logger = "1"
tokio = "0.1"
