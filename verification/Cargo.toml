[package]
name = "fdr_core"
version = "0.1.0"
edition = "2021"
publish = false

[dependencies]
anyhow = "1"
crossbeam-channel = "0.5"
globset = "0.4"
ignore = "0.4"
magnus = "*"
regex = "1"
tikv-jemallocator = "*"
