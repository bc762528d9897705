[package]
name = "embedded-qmp6988"
version = "0.1.0"
edition = "2021"
publish = false

[dependencies]
embedded-hal = "1.0"
micromath = "2"
