[package]
name = "cs_witnessable"
version = "0.1.0"
edition = "2021"
publish = false

[dependencies]
franklin-crypto = "=0.2.2"
