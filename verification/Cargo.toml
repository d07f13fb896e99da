[package]
name = "syntax"
version = "0.1.0"
edition = "2021"
publish = false

[dependencies]
bytes = "*"
clap = "*"
futures = "*"
log = "*"
log4rs = "*"
tokio = { version = "*", features = ["full"] }
