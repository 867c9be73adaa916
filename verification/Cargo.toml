[package]
name = "pgrx_tests"
version = "0.1.0"
edition = "2021"
publish = false

[dependencies]
owo-colors = "*"
postgres = "*"
sysinfo = "*"
libc = "*"
once_cell = "*"
