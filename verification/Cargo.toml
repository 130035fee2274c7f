[package]
name = "variant_data"
version = "0.1.0"
edition = "2021"
publish = false

[dependencies]
syn = "0.11"
