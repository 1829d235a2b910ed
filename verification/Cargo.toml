[package]
name = "ironfish_sapling"
version = "0.1.0"
edition = "2021"
publish = false

[dependencies]
ironfish-bellperson = "=0.2.0"
blstrs = "=0.6.2"
bls12_381 = "=0.9.0"
once_cell = "=1.21.4"
pairing = "=0.22.0"

[dev-dependencies]
rand = "0.8"
