[package]
name = "riffparse"
version = "0.1.0"
edition = "2021"

[dependencies]
binrw = "*"
embedded-io = "*"
