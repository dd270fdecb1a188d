[package]
name = "neovide"
version = "0.1.0"
edition = "2021"
publish = false

[dependencies]
rmpv = "=0.4.7"
rmp = "=0.8.9"
nvim-rs = { version = "=0.2.0", features = ["use_tokio"] }
tokio = { version = "=0.2.25", features = ["rt-threaded", "process", "sync", "time", "blocking"] }
log = "=0.4.34"
flexi_logger = { version = "=0.14.8", default-features = false }
parking_lot = "=0.10.2"
skulpin = "=0.5.2"
