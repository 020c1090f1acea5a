[package]
name = "sktablelayout"
version = "0.1.0"
edition = "2021"

[dependencies]
bitflags = "1"
