[package]
name = "axel"
version = "0.1.0"
edition = "2021"
publish = false

[dependencies]
shakmaty = "=0.29.4"
dashmap = "=6.2.1"
async-std = "=1.13.2"
