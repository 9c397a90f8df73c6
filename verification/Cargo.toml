[package]
name = "bulb_manager"
version = "0.1.0"
edition = "2021"
publish = false

[dependencies]
lifx-core = "*"
get_if_addrs = "*"
failure = "*"
