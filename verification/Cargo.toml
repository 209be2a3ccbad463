[package]
name = "nucc_binary"
version = "0.1.0"
edition = "2021"
publish = false

[dependencies]
regex = "1"
deku = "*"
strum = "*"
strum_macros = "*"
