[package]
name = "beacon_mpc"
version = "0.1.0"
edition = "2021"
publish = false

[dependencies]
blake2 = "=0.10.6"
rand = "=0.8.8"
rand_chacha = "=0.3.1"
