[package]
name = "cargo_info"
version = "0.1.0"
edition = "2021"
publish = false

[dependencies]
chrono = "0.4"
chrono-humanize = "*"
clap = "2"
json = "0.12"
requests = "*"
