[package]
name = "x1b"
version = "0.1.0"
edition = "2021"

[dependencies]
bitflags = "0.9"
