[package]
name = "collection_gate"
version = "0.1.0"
edition = "2021"
publish = false

[dependencies]
anchor-lang = "*"
mpl-core = "*"
