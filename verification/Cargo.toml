[package]
name = "yaml2json"
version = "0.1.0"
edition = "2021"
publish = false

[dependencies]
yaml2json-rs = "*"
yaml-split = "*"
clap = "*"
