[package]
name = "proof_batch"
version = "0.1.0"
edition = "2021"
rust-version = "1.95"
publish = false

[dependencies]
dusk-plonk = "=0.22.1"
dusk-bytes = "=0.1.7"
derive-hex = "=0.1.2"
crossbeam-channel = "=0.5.17"
threadpool = "=1.8.1"
num_cpus = "=1.17.0"

[dev-dependencies]
rand = "0.8"
