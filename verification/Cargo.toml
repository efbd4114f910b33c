[package]
name = "pyrefly"
version = "0.1.0"
edition = "2021"
publish = false

[dependencies]
starlark_map = "*"
vec1 = "*"
dupe = "*"
