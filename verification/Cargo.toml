[package]
name = "chan_thread"
version = "0.1.0"
edition = "2021"
publish = false

[dependencies]
futures = "0.3"
crossbeam-channel = "0.5"
log = "0.4"
