[package]
name = "ketchup_mod"
version = "0.1.0"
edition = "2021"
publish = false

[dependencies]
skyline = "=0.6.0"
