[package]
name = "addin_tools"
version = "0.1.0"
edition = "2021"
publish = false

[dependencies]
addin1c = "*"
smallvec = "*"
