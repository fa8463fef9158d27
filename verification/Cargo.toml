[package]
name = "mines"
version = "0.1.0"
edition = "2021"
publish = false

[dependencies]
anchor-lang = "0.30.1"
arrayref = "0.3"
