[package]
name = "qt-cargo-base"
version = "0.1.0"
edition = "2021"
publish = false

[dependencies]
cc = "1"
itertools = "0.10"
libc = "0.2"
num_cpus = "1"
pathdiff = "0.2"
walkdir = "2"
