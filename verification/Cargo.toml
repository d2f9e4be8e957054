[package]
name = "sigbench"
version = "0.1.0"
edition = "2021"
publish = false

[dependencies]
k256 = "=0.13.4"
ml-dsa = "=0.0.4"
slh-dsa = "=0.0.3"
rand_core = { version = "=0.6.4", features = ["getrandom"] }
signature = "=2.2.0"
