[package]
name = "pawawwewism"
version = "0.3.0"
edition = "2021"
publish = false

[dependencies]
crossbeam-channel = "0.5"
log = "0.4"
