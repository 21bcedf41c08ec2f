[package]
name = "host_stats"
version = "0.1.0"
edition = "2021"
publish = false

[dependencies]
num_cpus = "1"
libc = "0.2"
winapi = "0.2"
kernel32-sys = "0.2"
