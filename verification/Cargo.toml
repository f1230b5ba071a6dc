[package]
name = "skse_plugin"
version = "0.1.0"
edition = "2021"
publish = false

[dependencies]
dirs = "*"
log = "*"
simple-logging = "*"
