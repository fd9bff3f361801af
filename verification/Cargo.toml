[package]
name = "fast_threadpool"
version = "0.1.0"
edition = "2021"
publish = false

[dependencies]
flume = "0.11.1"
num_cpus = "1.17.0"
async-oneshot = "*"
