[package]
name = "multicore"
version = "0.1.0"
edition = "2021"
publish = false

[dependencies]
futures = "0.1"
futures-cpupool = "0.1"
rayon = "1"
num_cpus = "1"
