[package]
name = "prop_value"
version = "0.1.0"
edition = "2021"
publish = false

[dependencies]
implicit-clone = { version = "0.4", default-features = false, features = ["map"] }
indexmap = { version = "2" }
