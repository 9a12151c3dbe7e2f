[package]
name = "unit_amount"
version = "0.1.0"
edition = "2021"
publish = false

[dependencies]
alloy-primitives = { version = "*", default-features = false, features = ["std"] }
proc-macro2 = "1"
quote = "1"
syn = "2"
