[package]
name = "wdf6m200"
version = "0.1.0"
edition = "2021"
publish = false

[dependencies]
serialport = { version = "4", default-features = false }
dimensioned = "*"
pair_macro = "*"
