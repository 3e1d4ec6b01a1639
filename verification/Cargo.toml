[package]
name = "hac"
version = "0.1.0"
edition = "2021"
publish = false

[dependencies]
anyhow = "1"
dirs = "5"
eyre = "0.6"
fs-err = "2"
hex = "0.4"
tempdir = "0.3"
tracing = "0.1"
walkdir = "2"
