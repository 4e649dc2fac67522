[package]
name = "gameboy"
version = "0.1.0"
edition = "2021"
publish = false

[dependencies]
byteorder = "1"
num-traits = "0.2"
failure = "0.1"
