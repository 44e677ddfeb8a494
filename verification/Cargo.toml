[package]
name = "karaoke_rs"
version = "0.1.0"
edition = "2021"
publish = false

[dependencies]
cdg = "*"
cdg_renderer = "*"
image = "*"
crossbeam-channel = "*"
id3 = "*"
