[package]
name = "philanthrify"
version = "0.1.0"
edition = "2021"
publish = false

[dependencies]
multiversx-sc = "0.57"
multiversx-sc-scenario = "0.57"
