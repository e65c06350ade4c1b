[package]
name = "ref_str"
version = "0.2.0"
edition = "2021"
publish = false

[dependencies]
serde = "1"
arbitrary = "1"
