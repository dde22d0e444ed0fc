[package]
name = "ipc_watcher"
version = "0.1.0"
edition = "2021"
publish = false

[dependencies]
raw_sync = "0.1"
shared_memory = "0.12"
