[package]
name = "moors"
version = "0.1.0"
edition = "2021"
publish = false

[dependencies]
derive_builder = "0.20"
ndarray = "0.16"
