[package]
name = "fvm_bridge"
version = "0.1.0"
edition = "2021"
publish = false

[dependencies]
cid = "*"
fvm_ipld_encoding = "*"
fvm_shared = "*"

[dev-dependencies]
multihash = "*"
