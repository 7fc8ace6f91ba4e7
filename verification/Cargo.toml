[package]
name = "ampere"
version = "0.1.0"
edition = "2021"
publish = false

[dependencies]
arrayvec = "*"
clap = "*"
mimalloc = "*"
parking_lot = "*"
