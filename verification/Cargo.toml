[package]
name = "rustfmt_wrapper"
version = "0.1.0"
edition = "2021"
publish = false

[dependencies]
tempfile = "*"
thiserror = "*"
toolchain_find = "*"
