[package]
name = "once_self_cell"
version = "0.1.0"
edition = "2021"

[dependencies]
once_cell = "1"
