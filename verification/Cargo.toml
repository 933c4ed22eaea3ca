[package]
name = "ra_core"
version = "0.1.0"
edition = "2021"
publish = false

[dependencies]
rustc-hash = "1.1.0"
itertools = "0.8"
relative-path = "0.4"
languageserver-types = "0.53"
salsa = "0.9"
log = "0.4"
