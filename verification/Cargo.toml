[package]
name = "dict_reader"
version = "0.1.0"
edition = "2021"
publish = false

[dependencies]
anyhow = "*"
mdict-parser = "*"
napi = "*"
napi-derive = "*"
