[package]
name = "simple_clap_logger"
version = "0.1.0"
edition = "2021"
publish = false

[dependencies]
colored = "=3.1.1"
log = { version = "=0.4.34", features = ["std"] }
