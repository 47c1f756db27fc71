[package]
name = "conjure"
version = "0.1.0"
edition = "2021"
publish = false

[dependencies]
ariadne = "0.5"
ordermap = "0.5"
rand = "0.8"
