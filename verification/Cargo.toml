[package]
name = "term_core"
version = "0.1.0"
edition = "2021"
publish = false

[dependencies]
harfbuzz_rs = "*"
vte = "*"
rusttype = "*"
image = { version = "*", default-features = false, features = ["png"] }
