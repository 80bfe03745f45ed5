[package]
name = "cf_speedtest"
version = "0.3.0"
edition = "2021"
publish = false

[dependencies]
chrono = "0.4"
ureq = "2"
