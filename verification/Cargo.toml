[package]
name = "freelance_escrow"
version = "0.1.0"
edition = "2021"
publish = false

[dependencies]
stylus-sdk = "=0.9.2"
alloy-sol-types = "=0.8.20"
alloy-primitives = "=0.8.20"
ruint = "=1.12.3"
