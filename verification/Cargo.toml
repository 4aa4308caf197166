[package]
name = "ovr_core"
version = "0.1.0"
edition = "2021"
publish = false

[dependencies]
byteorder = "1"
derive_more = "0.99"
enumset = "1"
slice-of-array = "*"
