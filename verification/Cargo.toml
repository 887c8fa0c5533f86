[package]
name = "logtea"
version = "0.1.0"
edition = "2021"
publish = false

[dependencies]
rettle = "*"
nom = "7"
