[package]
name = "signal"
version = "0.3.0"
edition = "2021"
publish = false

[dependencies]
either = "1"
