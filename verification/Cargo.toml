[package]
name = "oriphim_runner"
version = "0.1.0"
edition = "2021"
publish = false

[dependencies]
dirs = "*"
log = "*"
tokio = { version = "1", features = ["time"] }
