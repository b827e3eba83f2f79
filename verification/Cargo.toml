[package]
name = "deps_status"
version = "0.1.0"
edition = "2021"
publish = false

[dependencies]
hyper = "0.11"
lazy_static = "=1.5.1"
maud = "=0.27.0"
ordermap = "=0.4.2"
