[package]
name = "ygopro"
version = "0.1.0"
edition = "2021"
publish = false

[dependencies]
base64 = "=0.22.1"
encoding_rs = "=0.8.44"
lzma-rs = "=0.3.0"
rand = "=0.8.8"
