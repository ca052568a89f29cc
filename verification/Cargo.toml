[package]
name = "vrc_counter"
version = "0.1.0"
edition = "2021"
publish = false

[dependencies]
rosc = "*"
rust_decimal = "*"
regex = "*"
tokio = { version = "*", features = ["net", "rt-multi-thread", "macros"] }
