[package]
name = "ray_tracer"
version = "0.1.0"
edition = "2021"
publish = false

[dependencies]
rand = "0.8"
num_cpus = "1"
humantime = "2"
image = "0.24"
