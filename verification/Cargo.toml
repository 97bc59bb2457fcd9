[package]
name = "jbig2dec"
version = "0.3.0"
edition = "2021"
publish = false

[dependencies]
png = "0.16"
