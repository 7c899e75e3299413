[package]
name = "sdspi"
version = "0.1.0"
edition = "2021"
publish = false

[dependencies]
async-trait = "0.1"
embedded-hal = "0.2"
