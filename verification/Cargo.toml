[package]
name = "lpc55_puf"
version = "0.1.0"
edition = "2021"
publish = false

[dependencies]
lpc55-pac = "*"
