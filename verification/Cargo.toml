[package]
name = "dualstack_resolve"
version = "0.1.0"
edition = "2021"
publish = false

[dependencies]
hickory-resolver = "0.24"
hickory-proto = "0.24"
