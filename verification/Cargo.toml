[package]
name = "seg_fifo"
version = "0.1.0"
edition = "2021"
publish = false

[dependencies]
crossbeam = "0.8"
libc = "0.2"
