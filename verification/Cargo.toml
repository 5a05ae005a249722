[package]
name = "babe"
version = "0.1.0"
edition = "2021"
publish = false

[dependencies]
blake2-rfc = "=0.2.18"
derive_more = "=0.99.20"
merlin = "=3.0.0"
num-bigint = "0.4"
num-rational = "=0.4.2"
num-traits = "=0.2.19"
schnorrkel = "=0.11.5"
