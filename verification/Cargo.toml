[package]
name = "polyvec"
version = "0.1.0"
edition = "2021"
publish = false

[dependencies]
raw-parts = "*"
thiserror = "*"
