[package]
name = "trun_decoder"
version = "0.1.0"
edition = "2021"
publish = false

[dependencies]
symphonia-core = "*"
log = "*"
