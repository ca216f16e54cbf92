[package]
name = "xtaskops"
version = "0.1.0"
edition = "2021"
publish = false

[dependencies]
anyhow = "1"
clap = "3"
duct = "0.13"
