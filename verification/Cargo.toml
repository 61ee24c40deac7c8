[package]
name = "parallel_workers"
version = "0.1.0"
edition = "2021"
publish = false

[dependencies]
rand = "0.8"
rayon = "1"
num_cpus = "1"
futures = "0.1"
tokio = "0.1"
log = "0.4"
env_logger = "0.11"
