[package]
name = "gas_network"
version = "0.1.0"
edition = "2021"

[dependencies]
nalgebra = "*"
