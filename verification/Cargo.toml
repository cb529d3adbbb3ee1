[package]
name = "rpc_core"
version = "0.1.0"
edition = "2021"
publish = false

[dependencies]
capnp = { version = "=0.8.17", features = ["rpc"] }
capnp-futures = "=0.1.1"
futures = "=0.1.31"
