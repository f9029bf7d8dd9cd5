[package]
name = "pargrep"
version = "0.1.0"
edition = "2021"
publish = false

[dependencies]
crossbeam-channel = "*"
grep-matcher = "*"
grep-regex = "*"
grep-searcher = "*"
ignore = "*"
num_cpus = "*"

[dev-dependencies]
tempfile = "*"
fs-err = "*"
