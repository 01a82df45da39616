[package]
name = "vl53l0x_core"
version = "0.1.0"
edition = "2021"
publish = false

[dependencies]
embassy-sync = "*"
embedded-hal = "1"
embedded-hal-async = "1"
