[package]
name = "multisnake"
version = "0.1.0"
edition = "2021"
publish = false

[dependencies]
smoltcp = "=0.6.0"
r0 = "=0.2.2"
