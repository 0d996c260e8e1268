[package]
name = "mystik_core"
version = "0.1.0"
edition = "2021"
publish = false

[dependencies]
regex = "*"
uuid = { version = "*", features = ["v4"] }
num_cpus = "*"
walkdir = "*"
rayon = "*"
