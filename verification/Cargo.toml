[package]
name = "replica_set"
version = "0.1.0"
edition = "2021"
publish = false

[dependencies]
futures = "0.3"
itertools = "0.12"
log = "0.4"
num_cpus = "1"
tokio = { version = "1", features = ["sync", "rt", "time"] }
