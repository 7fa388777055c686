[package]
name = "actor"
version = "0.1.0"
edition = "2021"
publish = false

[dependencies]
typemap = "0.3"
