[package]
name = "editbay"
version = "0.1.0"
edition = "2021"
publish = false

[dependencies]
image = "=0.23.14"
indicatif = "0.17"
