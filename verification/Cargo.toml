[package]
name = "mini_rayon"
version = "0.1.0"
edition = "2021"
publish = false

[dependencies]
crossbeam-deque = "*"
crossbeam-utils = "*"
anyhow = "*"
