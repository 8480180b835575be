[package]
name = "rvemu_harness"
version = "0.1.0"
edition = "2021"
publish = false

[dependencies]
rvemu = "*"
clap = "=2.34.0"
