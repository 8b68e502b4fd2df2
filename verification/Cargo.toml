[package]
name = "bitcoind_exporter"
version = "0.1.0"
edition = "2021"
publish = false

[dependencies]
bitcoincore-rpc = "*"
bitcoincore-rpc-json = "*"
log = "*"
prometheus = { version = "*", default-features = false }
