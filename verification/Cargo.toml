[package]
name = "loggerv"
version = "0.8.0"
edition = "2021"
publish = false

[dependencies]
ansi_term = "=0.11.0"
atty = "=0.2.14"
log = { version = "=0.4.34", features = ["std"] }
