[package]
name = "got_a_min"
version = "0.1.0"
edition = "2021"
publish = false

[dependencies]
anchor-lang = "0.26.0"
