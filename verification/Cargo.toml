[package]
name = "easy_pool"
version = "0.1.0"
edition = "2021"
publish = false

[dependencies]
crossbeam = "*"
parking_lot = "*"
once_cell = "*"
