[package]
name = "log_filter"
version = "0.1.0"
edition = "2021"
publish = false

[dependencies]
access_log_parser = "*"
chrono = "*"
clap = { version = "*", features = ["derive"] }
http = "*"
rs_filter = "*"
