[package]
name = "host_func"
version = "0.1.0"
edition = "2021"
publish = false

[dependencies]
rand = "=0.8.8"
wasmedge-types = "=0.2.1"
