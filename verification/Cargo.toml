[package]
name = "logical"
version = "0.2.0"
edition = "2021"

[dependencies]
chrono = "0.4"
