[package]
name = "aspasia"
version = "0.1.0"
edition = "2021"
publish = false

[dependencies]
chardetng = "=0.1.17"
encoding_rs = "=0.8.42"
encoding_rs_io = "=0.1.8"
