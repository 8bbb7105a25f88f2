[package]
name = "library_filtered"
version = "0.1.0"
edition = "2021"
publish = false

[dependencies]
derivative = "*"
itertools = "*"
serde = "1"
serde_derive = "1"
