[package]
name = "leveled_logger"
version = "0.1.0"
edition = "2021"
publish = false

[dependencies]
async-std = { version = "1", features = ["attributes"] }
clap = "2"
colored = "1"
juno = "*"
