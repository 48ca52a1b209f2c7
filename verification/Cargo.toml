[package]
name = "substrate_airgapped_types"
version = "0.1.0"
edition = "2021"
publish = false

[dependencies]
blake2-rfc = "0.2.18"
parity-scale-codec = "*"
sp-runtime = "*"
