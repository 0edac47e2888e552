[package]
name = "p150"
version = "0.1.0"
edition = "2021"
publish = false

[dependencies]
log = "*"
nickel = "*"
plugin = "*"
rustc-serialize = "*"
typemap = "*"
